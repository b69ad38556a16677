//! The `conan install` command: its configuration and its argument list.

pub mod generate;
pub mod laws;

use crate::build_info::build_settings::{BuildSettings, BuildSettingsView};
use crate::host::{Environment, EnvironmentView};
use crate::path::{join_path, joined_path, paths_equal, same_path};
use crate::version::ConanApi;
use vstd::prelude::*;

verus! {

/// When Conan builds a package from source.
#[derive(Copy, Clone, Debug, PartialEq, Eq, Structural)]
pub enum BuildPolicy {
    Never,
    Always,
    Missing,
    Outdated,
}

impl BuildPolicy {
    /// The arguments that select the policy.
    pub open spec fn spec_args(self) -> Seq<Seq<char>> {
        match self {
            BuildPolicy::Never => seq!["-b"@, "never"@],
            BuildPolicy::Always => seq!["-b"@],
            BuildPolicy::Missing => seq!["-b"@, "missing"@],
            BuildPolicy::Outdated => seq!["-b"@, "outdated"@],
        }
    }

    /// The arguments that select the policy: `-b` and the policy's name, but
    /// `-b` alone for [`BuildPolicy::Always`].
    pub fn args(&self) -> (args: Vec<String>)
        ensures
            args.deep_view() == self.spec_args(),
    {
        let mut args: Vec<String> = Vec::new();
        assert(args.deep_view() =~= Seq::<Seq<char>>::empty());
        push_text(&mut args, "-b");
        match self {
            BuildPolicy::Never => push_text(&mut args, "never"),
            BuildPolicy::Always => {},
            BuildPolicy::Missing => push_text(&mut args, "missing"),
            BuildPolicy::Outdated => push_text(&mut args, "outdated"),
        }
        assert(args.deep_view() =~= self.spec_args());
        args
    }
}

/// Appends one argument.
fn push_text(args: &mut Vec<String>, text: &str)
    ensures
        final(args).deep_view() == old(args).deep_view().push(text@),
{
    args.push(String::from_str(text));
    assert(args.deep_view() =~= old(args).deep_view().push(text@));
}

/// Appends the arguments `more`.
fn push_all(args: &mut Vec<String>, more: Vec<String>)
    ensures
        final(args).deep_view() == old(args).deep_view() + more.deep_view(),
{
    let mut more = more;
    let ghost added = more.deep_view();
    args.append(&mut more);
    assert(args.deep_view() =~= old(args).deep_view() + added);
}

/// Appends a flag and its value, where there is a value.
fn push_flag(args: &mut Vec<String>, flag: &str, value: Option<&str>)
    ensures
        final(args).deep_view() == old(args).deep_view() + flag_args(
            flag@,
            match value {
                Some(value) => Some(value@),
                None => None,
            },
        ),
{
    let ghost before = args.deep_view();
    match value {
        Some(value) => {
            push_text(args, flag);
            push_text(args, value);
            assert(args.deep_view() =~= before + seq![flag@, value@]);
        },
        None => {
            assert(args.deep_view() =~= before + Seq::<Seq<char>>::empty());
        },
    }
}

/// Appends the flag that asks for a check for updates, where it is asked for.
fn push_update(args: &mut Vec<String>, update_check: bool)
    ensures
        final(args).deep_view() == old(args).deep_view() + update_args(update_check),
{
    let ghost before = args.deep_view();
    if update_check {
        push_text(args, "-u");
    }
    assert(args.deep_view() =~= before + update_args(update_check));
}

/// Appends the arguments that select the build policy, where there is one.
fn push_policy(args: &mut Vec<String>, policy: Option<BuildPolicy>)
    ensures
        final(args).deep_view() == old(args).deep_view() + policy_args(policy),
{
    let ghost before = args.deep_view();
    match policy {
        Some(policy) => {
            push_all(args, policy.args());
        },
        None => {
            assert(args.deep_view() =~= before + Seq::<Seq<char>>::empty());
        },
    }
}

/// Appends the recipe path, where there is one.
fn push_recipe(args: &mut Vec<String>, recipe_path: &Option<String>)
    ensures
        final(args).deep_view() == old(args).deep_view() + recipe_args(recipe_path.deep_view()),
{
    let ghost before = args.deep_view();
    match recipe_path {
        Some(path) => {
            push_text(args, path.as_str());
            assert(args.deep_view() =~= before + seq![path@]);
        },
        None => {
            assert(args.deep_view() =~= before + Seq::<Seq<char>>::empty());
        },
    }
}

/// Name of the file that Conan's `json` generator writes.
pub open spec fn spec_output_file_name() -> Seq<char> {
    "conanbuildinfo.json"@
}

/// A flag and its value, where there is a value.
pub open spec fn flag_args(flag: Seq<char>, value: Option<Seq<char>>) -> Seq<Seq<char>> {
    match value {
        Some(value) => seq![flag, value],
        None => Seq::empty(),
    }
}

/// The flag that asks for a check for updates, where it is asked for.
pub open spec fn update_args(update_check: bool) -> Seq<Seq<char>> {
    if update_check {
        seq!["-u"@]
    } else {
        Seq::empty()
    }
}

/// The arguments that select the build policy, where there is one.
pub open spec fn policy_args(policy: Option<BuildPolicy>) -> Seq<Seq<char>> {
    match policy {
        Some(policy) => policy.spec_args(),
        None => Seq::empty(),
    }
}

/// The recipe path as the last argument, where there is one.
pub open spec fn recipe_args(recipe_path: Option<Seq<char>>) -> Seq<Seq<char>> {
    match recipe_path {
        Some(path) => seq![path],
        None => Seq::empty(),
    }
}

/// What an [`InstallCommand`] holds.
pub struct InstallCommandView {
    pub conan_api: ConanApi,
    pub profile: Option<Seq<char>>,
    pub remote: Option<Seq<char>>,
    pub build_settings: BuildSettingsView,
    pub build_policy: Option<BuildPolicy>,
    pub recipe_path: Option<Seq<char>>,
    pub output_dir: Option<Seq<char>>,
    pub update_check: bool,
}

impl InstallCommandView {
    /// The directory that the command writes to: the one it names, else the
    /// one that `OUT_DIR` names, else the working directory.
    pub open spec fn output_dir(self, env: EnvironmentView) -> Option<Seq<char>> {
        if self.output_dir is Some {
            self.output_dir
        } else if env.out_dir is Some {
            env.out_dir
        } else {
            env.current_dir
        }
    }

    /// The build information file: `conanbuildinfo.json` in the output
    /// directory.
    pub open spec fn output_file(self, env: EnvironmentView) -> Option<Seq<char>> {
        match self.output_dir(env) {
            Some(dir) => Some(joined_path(dir, spec_output_file_name())),
            None => None,
        }
    }

    /// Whether the command has to name its output directory: there is one,
    /// and it is not known to be the working directory.
    pub open spec fn names_output_dir(self, env: EnvironmentView) -> bool {
        match self.output_dir(env) {
            Some(dir) => match env.current_dir {
                Some(current_dir) => !same_path(dir, current_dir),
                None => true,
            },
            None => false,
        }
    }

    /// The arguments that name the output directory. Conan 1.x wants it as
    /// its install folder too.
    pub open spec fn output_args(self, env: EnvironmentView) -> Seq<Seq<char>> {
        if self.names_output_dir(env) {
            let dir = self.output_dir(env)->0;
            seq!["--output-folder"@, dir] + if self.conan_api == ConanApi::V1 {
                seq!["--install-folder"@, dir]
            } else {
                Seq::empty()
            }
        } else {
            Seq::empty()
        }
    }

    /// The argument list of the command.
    pub open spec fn args(self, env: EnvironmentView) -> Seq<Seq<char>> {
        seq!["install"@, "-g"@, "json"@] + flag_args("-pr"@, self.profile) + flag_args(
            "-r"@,
            self.remote,
        ) + update_args(self.update_check) + policy_args(self.build_policy) + self.output_args(env)
            + self.build_settings.args() + recipe_args(self.recipe_path)
    }
}

/// A `conan install` command, frozen: it is made by
/// [`InstallCommandBuilder::build`] and never changes.
pub struct InstallCommand<'a> {
    conan_api: ConanApi,
    profile: Option<&'a str>,
    remote: Option<&'a str>,
    build_settings: BuildSettings,
    build_policy: Option<BuildPolicy>,
    recipe_path: Option<String>,
    output_dir: Option<String>,
    update_check: bool,
}

impl<'a> View for InstallCommand<'a> {
    type V = InstallCommandView;

    closed spec fn view(&self) -> InstallCommandView {
        InstallCommandView {
            conan_api: self.conan_api,
            profile: match self.profile {
                Some(profile) => Some(profile@),
                None => None,
            },
            remote: match self.remote {
                Some(remote) => Some(remote@),
                None => None,
            },
            build_settings: self.build_settings@,
            build_policy: self.build_policy,
            recipe_path: self.recipe_path.deep_view(),
            output_dir: self.output_dir.deep_view(),
            update_check: self.update_check,
        }
    }
}

impl<'a> InstallCommand<'a> {
    /// Renders the argument list of the command, in the order that Conan
    /// expects: the subcommand, the generator, the profile, the remote, the
    /// update flag, the build policy, the output directory, the settings, and
    /// last the recipe path. The output directory is named only where it is
    /// not the working directory; where the working directory is unknown, it
    /// is named.
    pub fn args(&self, env: &Environment) -> (args: Vec<String>)
        ensures
            args.deep_view() == self@.args(env@),
    {
        let mut args: Vec<String> = Vec::new();
        push_text(&mut args, "install");
        push_text(&mut args, "-g");
        push_text(&mut args, "json");
        assert(args.deep_view() =~= seq!["install"@, "-g"@, "json"@]);
        push_flag(&mut args, "-pr", self.profile);
        push_flag(&mut args, "-r", self.remote);
        push_update(&mut args, self.update_check);
        push_policy(&mut args, self.build_policy);
        self.push_output(&mut args, env);
        push_all(&mut args, self.build_settings.args());
        push_recipe(&mut args, &self.recipe_path);
        args
    }

    /// Appends the arguments that name the output directory.
    fn push_output(&self, args: &mut Vec<String>, env: &Environment)
        ensures
            final(args).deep_view() == old(args).deep_view() + self@.output_args(env@),
    {
        let ghost before = args.deep_view();
        if let Some(dir) = self.output_dir(env) {
            let named = match &env.current_dir {
                Some(current_dir) => !paths_equal(dir.as_str(), current_dir.as_str()),
                None => true,
            };
            if named {
                push_text(args, "--output-folder");
                push_text(args, dir.as_str());
                if self.conan_api == ConanApi::V1 {
                    push_text(args, "--install-folder");
                    push_text(args, dir.as_str());
                }
            }
        }
        assert(args.deep_view() =~= before + self@.output_args(env@));
    }

    /// The directory that the command writes to: the one that the command
    /// names; else the one that `OUT_DIR` names; else the working directory;
    /// and none where that is unknown too.
    pub fn output_dir(&self, env: &Environment) -> (dir: Option<String>)
        ensures
            dir.deep_view() == self@.output_dir(env@),
    {
        match &self.output_dir {
            Some(dir) => Some(dir.clone()),
            None => match &env.out_dir {
                Some(dir) => Some(dir.clone()),
                None => match &env.current_dir {
                    Some(dir) => Some(dir.clone()),
                    None => None,
                },
            },
        }
    }

    /// The build information file that the command makes Conan write:
    /// `conanbuildinfo.json` in the output directory, and none where there is
    /// no output directory.
    pub fn output_file(&self, env: &Environment) -> (file: Option<String>)
        ensures
            file.deep_view() == self@.output_file(env@),
    {
        match self.output_dir(env) {
            Some(dir) => Some(join_path(dir.as_str(), "conanbuildinfo.json")),
            None => None,
        }
    }
}

/// What an [`InstallCommandBuilder`] holds.
pub struct InstallCommandBuilderView {
    pub conan_api: Option<ConanApi>,
    pub profile: Option<Seq<char>>,
    pub remote: Option<Seq<char>>,
    pub build_settings: Option<BuildSettingsView>,
    pub build_policy: Option<BuildPolicy>,
    pub recipe_path: Option<Seq<char>>,
    pub output_dir: Option<Seq<char>>,
    pub update_check: bool,
}

impl InstallCommandBuilderView {
    /// The builder to which nothing has been given yet.
    pub open spec fn empty() -> Self {
        InstallCommandBuilderView {
            conan_api: None,
            profile: None,
            remote: None,
            build_settings: None,
            build_policy: None,
            recipe_path: None,
            output_dir: None,
            update_check: false,
        }
    }

    /// The command that the builder freezes into: a missing API revision
    /// becomes [`ConanApi::V1`], missing settings become the empty settings,
    /// and every other field is taken as it is.
    pub open spec fn build(self) -> InstallCommandView {
        InstallCommandView {
            conan_api: match self.conan_api {
                Some(api) => api,
                None => ConanApi::V1,
            },
            profile: self.profile,
            remote: self.remote,
            build_settings: match self.build_settings {
                Some(settings) => settings,
                None => BuildSettingsView::empty(),
            },
            build_policy: self.build_policy,
            recipe_path: self.recipe_path,
            output_dir: self.output_dir,
            update_check: self.update_check,
        }
    }
}

/// One thing that a caller gives to a builder: the value of one field.
pub enum Setting {
    ConanApi(ConanApi),
    Profile(Seq<char>),
    Remote(Seq<char>),
    BuildSettings(BuildSettingsView),
    BuildPolicy(BuildPolicy),
    RecipePath(Seq<char>),
    OutputDir(Seq<char>),
    UpdateCheck,
}

impl Setting {
    /// Whether the two settings are values of the same field.
    pub open spec fn same_field(self, other: Setting) -> bool {
        match (self, other) {
            (Setting::ConanApi(_), Setting::ConanApi(_)) => true,
            (Setting::Profile(_), Setting::Profile(_)) => true,
            (Setting::Remote(_), Setting::Remote(_)) => true,
            (Setting::BuildSettings(_), Setting::BuildSettings(_)) => true,
            (Setting::BuildPolicy(_), Setting::BuildPolicy(_)) => true,
            (Setting::RecipePath(_), Setting::RecipePath(_)) => true,
            (Setting::OutputDir(_), Setting::OutputDir(_)) => true,
            (Setting::UpdateCheck, Setting::UpdateCheck) => true,
            _ => false,
        }
    }
}

impl InstallCommandBuilderView {
    /// The builder after it was given `setting`: the field of the setting
    /// has the new value, and every other field is as it was.
    pub open spec fn with(self, setting: Setting) -> Self {
        match setting {
            Setting::ConanApi(api) => InstallCommandBuilderView { conan_api: Some(api), ..self },
            Setting::Profile(profile) => InstallCommandBuilderView {
                profile: Some(profile),
                ..self
            },
            Setting::Remote(remote) => InstallCommandBuilderView { remote: Some(remote), ..self },
            Setting::BuildSettings(settings) => InstallCommandBuilderView {
                build_settings: Some(settings),
                ..self
            },
            Setting::BuildPolicy(policy) => InstallCommandBuilderView {
                build_policy: Some(policy),
                ..self
            },
            Setting::RecipePath(path) => InstallCommandBuilderView {
                recipe_path: Some(path),
                ..self
            },
            Setting::OutputDir(dir) => InstallCommandBuilderView { output_dir: Some(dir), ..self },
            Setting::UpdateCheck => InstallCommandBuilderView { update_check: true, ..self },
        }
    }

    /// The builder after it was given `settings`, one after the other.
    pub open spec fn with_all(self, settings: Seq<Setting>) -> Self
        decreases settings.len(),
    {
        if settings.len() == 0 {
            self
        } else {
            self.with_all(settings.drop_last()).with(settings.last())
        }
    }
}

/// Collects the configuration of a `conan install` command. Each setter
/// takes the builder, sets one field and hands the builder back; no setter
/// looks at another field.
pub struct InstallCommandBuilder<'a> {
    conan_api: Option<ConanApi>,
    profile: Option<&'a str>,
    remote: Option<&'a str>,
    build_settings: Option<BuildSettings>,
    build_policy: Option<BuildPolicy>,
    recipe_path: Option<String>,
    output_dir: Option<String>,
    update_check: bool,
}

impl<'a> View for InstallCommandBuilder<'a> {
    type V = InstallCommandBuilderView;

    closed spec fn view(&self) -> InstallCommandBuilderView {
        InstallCommandBuilderView {
            conan_api: self.conan_api,
            profile: match self.profile {
                Some(profile) => Some(profile@),
                None => None,
            },
            remote: match self.remote {
                Some(remote) => Some(remote@),
                None => None,
            },
            build_settings: match self.build_settings {
                Some(settings) => Some(settings@),
                None => None,
            },
            build_policy: self.build_policy,
            recipe_path: self.recipe_path.deep_view(),
            output_dir: self.output_dir.deep_view(),
            update_check: self.update_check,
        }
    }
}

impl<'a> Default for InstallCommandBuilder<'a> {
    fn default() -> (builder: Self)
        ensures
            builder@ == InstallCommandBuilderView::empty(),
    {
        InstallCommandBuilder::new()
    }
}

impl<'a> InstallCommandBuilder<'a> {
    /// A builder to which nothing has been given yet.
    pub fn new() -> (builder: InstallCommandBuilder<'a>)
        ensures
            builder@ == InstallCommandBuilderView::empty(),
    {
        InstallCommandBuilder {
            conan_api: None,
            profile: None,
            remote: None,
            build_settings: None,
            build_policy: None,
            recipe_path: None,
            output_dir: None,
            update_check: false,
        }
    }

    /// Selects the API revision of the Conan executable: `v1.x` or `v2.x`.
    pub fn with_conan_api(self, api: ConanApi) -> (builder: Self)
        ensures
            builder@ == self@.with(Setting::ConanApi(api)),
    {
        InstallCommandBuilder { conan_api: Some(api), ..self }
    }

    /// Selects the profile.
    pub fn with_profile(self, profile: &'a str) -> (builder: Self)
        ensures
            builder@ == self@.with(Setting::Profile(profile@)),
    {
        InstallCommandBuilder { profile: Some(profile), ..self }
    }

    /// Selects the remote.
    pub fn with_remote(self, remote: &'a str) -> (builder: Self)
        ensures
            builder@ == self@.with(Setting::Remote(remote@)),
    {
        InstallCommandBuilder { remote: Some(remote), ..self }
    }

    /// Sets the build settings.
    pub fn build_settings(self, build_settings: BuildSettings) -> (builder: Self)
        ensures
            builder@ == self@.with(Setting::BuildSettings(build_settings@)),
    {
        InstallCommandBuilder { build_settings: Some(build_settings), ..self }
    }

    /// Sets the build policy.
    pub fn build_policy(self, build_policy: BuildPolicy) -> (builder: Self)
        ensures
            builder@ == self@.with(Setting::BuildPolicy(build_policy)),
    {
        InstallCommandBuilder { build_policy: Some(build_policy), ..self }
    }

    /// Sets the path of the recipe.
    pub fn recipe_path(self, recipe_path: &str) -> (builder: Self)
        ensures
            builder@ == self@.with(Setting::RecipePath(recipe_path@)),
    {
        InstallCommandBuilder { recipe_path: Some(String::from_str(recipe_path)), ..self }
    }

    /// Sets the output directory.
    pub fn output_dir(self, output_dir: &str) -> (builder: Self)
        ensures
            builder@ == self@.with(Setting::OutputDir(output_dir@)),
    {
        InstallCommandBuilder { output_dir: Some(String::from_str(output_dir)), ..self }
    }

    /// Asks Conan to check for updates.
    pub fn update_check(self) -> (builder: Self)
        ensures
            builder@ == self@.with(Setting::UpdateCheck),
    {
        InstallCommandBuilder { update_check: true, ..self }
    }

    /// Freezes the builder into a command. This never fails: a missing API
    /// revision becomes [`ConanApi::V1`], missing settings become the empty
    /// settings, and what else is missing stays missing.
    pub fn build(self) -> (command: InstallCommand<'a>)
        ensures
            command@ == self@.build(),
    {
        InstallCommand {
            conan_api: match self.conan_api {
                Some(api) => api,
                None => ConanApi::V1,
            },
            profile: self.profile,
            remote: self.remote,
            build_settings: match self.build_settings {
                Some(settings) => settings,
                None => BuildSettings::new(),
            },
            build_policy: self.build_policy,
            recipe_path: self.recipe_path,
            output_dir: self.output_dir,
            update_check: self.update_check,
        }
    }
}

} // verus!
