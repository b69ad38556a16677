//! What holds of every `conan install` command.

use crate::build_info::build_settings::{setting_args, BuildSettingsView};
use crate::host::EnvironmentView;
use crate::install::{
    flag_args, policy_args, recipe_args, update_args, InstallCommandBuilderView,
    InstallCommandView, Setting,
};
use crate::path::same_path;
use crate::version::ConanApi;
use vstd::prelude::*;

verus! {


/// Whether `text` is one of the two flags that name the output directory.
pub open spec fn is_output_flag(text: Seq<char>) -> bool {
    text == "--output-folder"@ || text == "--install-folder"@
}

/// Whether none of the arguments is a flag that names the output directory.
pub open spec fn free_of_output_flags(args: Seq<Seq<char>>) -> bool {
    forall|i: int| 0 <= i < args.len() ==> !is_output_flag(#[trigger] args[i])
}

proof fn lemma_free_of_output_flags_concat(a: Seq<Seq<char>>, b: Seq<Seq<char>>)
    requires
        free_of_output_flags(a),
        free_of_output_flags(b),
    ensures
        free_of_output_flags(a + b),
{
    assert forall|i: int| 0 <= i < (a + b).len() implies !is_output_flag(#[trigger] (a + b)[i]) by {
        if i < a.len() {
            assert((a + b)[i] == a[i]);
        } else {
            assert((a + b)[i] == b[i - a.len()]);
        }
    }
}

proof fn lemma_output_flags_start_with_dashes(text: Seq<char>)
    requires
        is_output_flag(text),
    ensures
        text.len() >= 15,
        text[0] == '-',
{
    reveal_strlit("--output-folder");
    reveal_strlit("--install-folder");
}

proof fn lemma_setting_free_of_output_flags(key: Seq<char>, value: Option<Seq<char>>)
    requires
        key.len() > 0,
        key[0] != '-',
    ensures
        free_of_output_flags(setting_args(key, value)),
{
    reveal_strlit("-s");
    let args = setting_args(key, value);
    assert forall|i: int| 0 <= i < args.len() implies !is_output_flag(#[trigger] args[i]) by {
        if is_output_flag(args[i]) {
            lemma_output_flags_start_with_dashes(args[i]);
            assert((key + value->0)[0] == key[0]);
        }
    }
}

proof fn lemma_settings_free_of_output_flags(settings: BuildSettingsView)
    ensures
        free_of_output_flags(settings.args()),
{
    reveal_strlit("arch=");
    reveal_strlit("arch_build=");
    reveal_strlit("build_type=");
    reveal_strlit("compiler=");
    reveal_strlit("compiler.libcxx=");
    reveal_strlit("compiler.version=");
    reveal_strlit("os=");
    reveal_strlit("os_build=");
    let a = setting_args("arch="@, settings.arch);
    let b = setting_args("arch_build="@, settings.arch_build);
    let c = setting_args("build_type="@, settings.build_type);
    let d = setting_args("compiler="@, settings.compiler);
    let e = setting_args("compiler.libcxx="@, settings.compiler_libcxx);
    let f = setting_args("compiler.version="@, settings.compiler_version);
    let g = setting_args("os="@, settings.os);
    let h = setting_args("os_build="@, settings.os_build);
    lemma_setting_free_of_output_flags("arch="@, settings.arch);
    lemma_setting_free_of_output_flags("arch_build="@, settings.arch_build);
    lemma_setting_free_of_output_flags("build_type="@, settings.build_type);
    lemma_setting_free_of_output_flags("compiler="@, settings.compiler);
    lemma_setting_free_of_output_flags("compiler.libcxx="@, settings.compiler_libcxx);
    lemma_setting_free_of_output_flags("compiler.version="@, settings.compiler_version);
    lemma_setting_free_of_output_flags("os="@, settings.os);
    lemma_setting_free_of_output_flags("os_build="@, settings.os_build);
    lemma_free_of_output_flags_concat(a, b);
    lemma_free_of_output_flags_concat(a + b, c);
    lemma_free_of_output_flags_concat(a + b + c, d);
    lemma_free_of_output_flags_concat(a + b + c + d, e);
    lemma_free_of_output_flags_concat(a + b + c + d + e, f);
    lemma_free_of_output_flags_concat(a + b + c + d + e + f, g);
    lemma_free_of_output_flags_concat(a + b + c + d + e + f + g, h);
}

impl InstallCommandView {
    /// The arguments that stand before those that name the output directory.
    pub open spec fn args_before_output(self) -> Seq<Seq<char>> {
        seq!["install"@, "-g"@, "json"@] + flag_args("-pr"@, self.profile) + flag_args(
            "-r"@,
            self.remote,
        ) + update_args(self.update_check) + policy_args(self.build_policy)
    }

    /// Whether a value that the caller chose (the profile, the remote, the
    /// recipe path) is itself written like a flag that names the output
    /// directory.
    pub open spec fn has_value_like_output_flag(self) -> bool {
        ||| self.profile matches Some(profile) && is_output_flag(profile)
        ||| self.remote matches Some(remote) && is_output_flag(remote)
        ||| self.recipe_path matches Some(path) && is_output_flag(path)
    }

    proof fn lemma_rest_free_of_output_flags(self)
        requires
            !self.has_value_like_output_flag(),
        ensures
            free_of_output_flags(self.args_before_output()),
            free_of_output_flags(self.build_settings.args()),
            free_of_output_flags(recipe_args(self.recipe_path)),
    {
        reveal_strlit("--output-folder");
        reveal_strlit("--install-folder");
        reveal_strlit("install");
        reveal_strlit("-g");
        reveal_strlit("json");
        reveal_strlit("-pr");
        reveal_strlit("-r");
        reveal_strlit("-u");
        reveal_strlit("-b");
        reveal_strlit("never");
        reveal_strlit("missing");
        reveal_strlit("outdated");
        let head = seq!["install"@, "-g"@, "json"@];
        let profile = flag_args("-pr"@, self.profile);
        let remote = flag_args("-r"@, self.remote);
        let update = update_args(self.update_check);
        let policy = policy_args(self.build_policy);
        assert forall|text: Seq<char>| text.len() < 15 implies !is_output_flag(text) by {
            if is_output_flag(text) {
                lemma_output_flags_start_with_dashes(text);
            }
        }
        assert forall|i: int| 0 <= i < head.len() implies !is_output_flag(#[trigger] head[i]) by {
            assert(head[i].len() < 15);
        }
        assert forall|i: int| 0 <= i < profile.len() implies !is_output_flag(
            #[trigger] profile[i],
        ) by {
            assert(i == 0 ==> profile[i].len() < 15);
        }
        assert forall|i: int| 0 <= i < remote.len() implies !is_output_flag(
            #[trigger] remote[i],
        ) by {
            assert(i == 0 ==> remote[i].len() < 15);
        }
        assert forall|i: int| 0 <= i < update.len() implies !is_output_flag(
            #[trigger] update[i],
        ) by {
            assert(update[i].len() < 15);
        }
        assert forall|i: int| 0 <= i < policy.len() implies !is_output_flag(
            #[trigger] policy[i],
        ) by {
            assert(policy[i].len() < 15);
        }
        lemma_free_of_output_flags_concat(head, profile);
        lemma_free_of_output_flags_concat(head + profile, remote);
        lemma_free_of_output_flags_concat(head + profile + remote, update);
        lemma_free_of_output_flags_concat(head + profile + remote + update, policy);
        lemma_settings_free_of_output_flags(self.build_settings);
        assert(free_of_output_flags(recipe_args(self.recipe_path)));
    }
}

/// Rendering is a function of the command and of the host: two renderings
/// of one command on one host are the same list, argument by argument and
/// character by character.
pub proof fn lemma_args_repeatable(
    command: InstallCommandView,
    env: EnvironmentView,
    first: Seq<Seq<char>>,
    second: Seq<Seq<char>>,
)
    requires
        first == command.args(env),
        second == command.args(env),
    ensures
        first == second,
{
}

/// A command whose output directory is the working directory names no output
/// directory, whatever its API revision: its argument list is that of the
/// other parts alone, and neither `--output-folder` nor `--install-folder`
/// is among its arguments. The latter is stated for commands of which no
/// value that the caller chose is itself written like one of the two flags.
pub proof fn lemma_working_dir_is_not_named(command: InstallCommandView, env: EnvironmentView)
    requires
        command.output_dir(env) is Some,
        env.current_dir is Some,
        same_path(command.output_dir(env)->0, env.current_dir->0),
    ensures
        command.output_args(env) == Seq::<Seq<char>>::empty(),
        command.args(env) == command.args_before_output() + command.build_settings.args()
            + recipe_args(command.recipe_path),
        !command.has_value_like_output_flag() ==> free_of_output_flags(command.args(env)),
{
    let before = command.args_before_output();
    let settings = command.build_settings.args();
    let recipe = recipe_args(command.recipe_path);
    assert(command.args(env) =~= before + settings + recipe);
    if !command.has_value_like_output_flag() {
        command.lemma_rest_free_of_output_flags();
        lemma_free_of_output_flags_concat(before, settings);
        lemma_free_of_output_flags_concat(before + settings, recipe);
    }
}

/// A command for Conan 1.x whose output directory is not the working
/// directory names it twice, as output folder and as install folder, with
/// the same path: the four arguments stand together, after the build policy
/// and before the settings.
pub proof fn lemma_v1_names_output_dir_twice(command: InstallCommandView, env: EnvironmentView)
    requires
        command.conan_api == ConanApi::V1,
        command.output_dir(env) is Some,
        env.current_dir matches Some(current_dir) ==> !same_path(
            command.output_dir(env)->0,
            current_dir,
        ),
    ensures
        command.output_args(env) == seq![
            "--output-folder"@,
            command.output_dir(env)->0,
            "--install-folder"@,
            command.output_dir(env)->0,
        ],
        ({
            let args = command.args(env);
            let at = command.args_before_output().len() as int;
            &&& at + 4 <= args.len()
            &&& args[at] == "--output-folder"@
            &&& args[at + 1] == command.output_dir(env)->0
            &&& args[at + 2] == "--install-folder"@
            &&& args[at + 3] == command.output_dir(env)->0
        }),
{
    let dir = command.output_dir(env)->0;
    let output = seq!["--output-folder"@, dir, "--install-folder"@, dir];
    assert(command.output_args(env) =~= output);
    let before = command.args_before_output();
    let rest = command.build_settings.args() + recipe_args(command.recipe_path);
    assert(command.args(env) =~= before + output + rest);
}

/// A command for Conan 2.x whose output directory is not the working
/// directory names it once, as output folder: Conan 2.x takes no install
/// folder.
pub proof fn lemma_v2_names_output_dir_once(command: InstallCommandView, env: EnvironmentView)
    requires
        command.conan_api == ConanApi::V2,
        command.output_dir(env) is Some,
        env.current_dir matches Some(current_dir) ==> !same_path(
            command.output_dir(env)->0,
            current_dir,
        ),
    ensures
        command.output_args(env) == seq!["--output-folder"@, command.output_dir(env)->0],
{
    let dir = command.output_dir(env)->0;
    assert(command.output_args(env) =~= seq!["--output-folder"@, dir]);
}

/// Settings of different fields can be given in either order: the builder
/// ends up the same.
pub proof fn lemma_settings_commute(
    builder: InstallCommandBuilderView,
    first: Setting,
    second: Setting,
)
    requires
        !first.same_field(second),
    ensures
        builder.with(first).with(second) == builder.with(second).with(first),
{
}

/// Of two settings of the same field the later one wins: the builder ends
/// up as if the earlier one had never been given.
pub proof fn lemma_later_setting_wins(
    builder: InstallCommandBuilderView,
    earlier: Setting,
    later: Setting,
)
    requires
        earlier.same_field(later),
    ensures
        builder.with(earlier).with(later) == builder.with(later),
{
}

/// In a sequence of settings two neighbours of different fields can change
/// places: the builder ends up the same. So the order in which a caller
/// gives the fields does not matter to the command that is built.
pub proof fn lemma_neighbours_commute(
    builder: InstallCommandBuilderView,
    settings: Seq<Setting>,
    at: int,
)
    requires
        0 <= at,
        at + 1 < settings.len(),
        !settings[at].same_field(settings[at + 1]),
    ensures
        builder.with_all(settings) == builder.with_all(
            settings.update(at, settings[at + 1]).update(at + 1, settings[at]),
        ),
    decreases settings.len(),
{
    let swapped = settings.update(at, settings[at + 1]).update(at + 1, settings[at]);
    if at + 2 == settings.len() {
        let before = settings.drop_last().drop_last();
        assert(swapped.drop_last().drop_last() =~= before);
        assert(swapped.drop_last().last() == settings[at + 1]);
        assert(settings.drop_last().last() == settings[at]);
        lemma_settings_commute(builder.with_all(before), settings[at], settings[at + 1]);
    } else {
        assert(swapped.drop_last() =~= settings.drop_last().update(at, settings[at + 1]).update(
            at + 1,
            settings[at],
        ));
        lemma_neighbours_commute(builder, settings.drop_last(), at);
    }
}

} // verus!
