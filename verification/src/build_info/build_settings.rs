//! Build settings: what `-s key=value` arguments a command carries.

use vstd::prelude::*;

verus! {

/// Build type of a package.
#[derive(Copy, Clone, Debug, PartialEq, Eq, Structural)]
pub enum BuildType {
    /// No build type: Conan's `None`.
    Unspecified,
    Debug,
    Release,
    RelWithDebInfo,
    MinSizeRel,
}

impl BuildType {
    /// The name by which Conan knows the build type.
    pub open spec fn spec_name(self) -> Seq<char> {
        match self {
            BuildType::Unspecified => "None"@,
            BuildType::Debug => "Debug"@,
            BuildType::Release => "Release"@,
            BuildType::RelWithDebInfo => "RelWithDebInfo"@,
            BuildType::MinSizeRel => "MinSizeRel"@,
        }
    }

    /// The name by which Conan knows the build type.
    pub fn as_str(&self) -> (name: &'static str)
        ensures
            name@ == self.spec_name(),
    {
        match self {
            BuildType::Unspecified => "None",
            BuildType::Debug => "Debug",
            BuildType::Release => "Release",
            BuildType::RelWithDebInfo => "RelWithDebInfo",
            BuildType::MinSizeRel => "MinSizeRel",
        }
    }
}

/// The arguments that one setting contributes: `-s` and `key=value` where the
/// setting has a value, nothing where it has none. `key` ends in `=`.
pub open spec fn setting_args(key: Seq<char>, value: Option<Seq<char>>) -> Seq<Seq<char>> {
    match value {
        Some(value) => seq!["-s"@, key + value],
        None => Seq::empty(),
    }
}

/// What a [`BuildSettings`] value holds.
pub struct BuildSettingsView {
    pub arch: Option<Seq<char>>,
    pub arch_build: Option<Seq<char>>,
    pub build_type: Option<Seq<char>>,
    pub compiler: Option<Seq<char>>,
    pub compiler_libcxx: Option<Seq<char>>,
    pub compiler_version: Option<Seq<char>>,
    pub os: Option<Seq<char>>,
    pub os_build: Option<Seq<char>>,
}

impl BuildSettingsView {
    /// The settings of which none has a value.
    pub open spec fn empty() -> Self {
        BuildSettingsView {
            arch: None,
            arch_build: None,
            build_type: None,
            compiler: None,
            compiler_libcxx: None,
            compiler_version: None,
            os: None,
            os_build: None,
        }
    }

    /// The argument list of the settings: one `-s key=value` pair for each
    /// setting that has a value, in the order of the fields.
    pub open spec fn args(self) -> Seq<Seq<char>> {
        setting_args("arch="@, self.arch) + setting_args("arch_build="@, self.arch_build)
            + setting_args("build_type="@, self.build_type) + setting_args(
            "compiler="@,
            self.compiler,
        ) + setting_args("compiler.libcxx="@, self.compiler_libcxx) + setting_args(
            "compiler.version="@,
            self.compiler_version,
        ) + setting_args("os="@, self.os) + setting_args("os_build="@, self.os_build)
    }
}

/// Settings of a build. Each is optional: one without a value is left to
/// Conan's own default and contributes no argument.
#[derive(Debug)]
pub struct BuildSettings {
    pub arch: Option<String>,
    pub arch_build: Option<String>,
    pub build_type: Option<String>,
    pub compiler: Option<String>,
    pub compiler_libcxx: Option<String>,
    pub compiler_version: Option<String>,
    pub os: Option<String>,
    pub os_build: Option<String>,
}

impl View for BuildSettings {
    type V = BuildSettingsView;

    open spec fn view(&self) -> BuildSettingsView {
        BuildSettingsView {
            arch: self.arch.deep_view(),
            arch_build: self.arch_build.deep_view(),
            build_type: self.build_type.deep_view(),
            compiler: self.compiler.deep_view(),
            compiler_libcxx: self.compiler_libcxx.deep_view(),
            compiler_version: self.compiler_version.deep_view(),
            os: self.os.deep_view(),
            os_build: self.os_build.deep_view(),
        }
    }
}

impl DeepView for BuildSettings {
    type V = BuildSettingsView;

    open spec fn deep_view(&self) -> BuildSettingsView {
        self@
    }
}

impl Default for BuildSettings {
    fn default() -> (settings: Self)
        ensures
            settings@ == BuildSettingsView::empty(),
    {
        BuildSettings::new()
    }
}

/// Appends to `args` what the setting `key` with `value` contributes.
fn push_setting(args: &mut Vec<String>, key: &str, value: &Option<String>)
    ensures
        final(args).deep_view() == old(args).deep_view() + setting_args(key@, value.deep_view()),
{
    match value {
        Some(value) => {
            let mut pair = String::from_str(key);
            pair.append(value.as_str());
            let ghost before = args.deep_view();
            args.push(String::from_str("-s"));
            args.push(pair);
            assert(args.deep_view() =~= before + seq!["-s"@, key@ + value@]);
        },
        None => {
            assert(args.deep_view() =~= args.deep_view() + Seq::<Seq<char>>::empty());
        },
    }
}

impl BuildSettings {
    /// Settings of which none has a value.
    pub fn new() -> (settings: Self)
        ensures
            settings@ == BuildSettingsView::empty(),
    {
        BuildSettings {
            arch: None,
            arch_build: None,
            build_type: None,
            compiler: None,
            compiler_libcxx: None,
            compiler_version: None,
            os: None,
            os_build: None,
        }
    }

    /// Renders the settings as arguments of `conan install`: `-s` and
    /// `key=value` for each setting that has a value, nothing for the others.
    pub fn args(&self) -> (args: Vec<String>)
        ensures
            args.deep_view() == self@.args(),
    {
        let mut args: Vec<String> = Vec::new();
        assert(args.deep_view() =~= Seq::<Seq<char>>::empty());
        push_setting(&mut args, "arch=", &self.arch);
        push_setting(&mut args, "arch_build=", &self.arch_build);
        push_setting(&mut args, "build_type=", &self.build_type);
        push_setting(&mut args, "compiler=", &self.compiler);
        push_setting(&mut args, "compiler.libcxx=", &self.compiler_libcxx);
        push_setting(&mut args, "compiler.version=", &self.compiler_version);
        push_setting(&mut args, "os=", &self.os);
        push_setting(&mut args, "os_build=", &self.os_build);
        assert(args.deep_view() =~= self@.args());
        args
    }

    /// Sets the architecture that the packages are built for.
    pub fn arch(self, arch: String) -> (settings: Self)
        ensures
            settings@ == (BuildSettingsView { arch: Some(arch@), ..self@ }),
    {
        BuildSettings { arch: Some(arch), ..self }
    }

    /// Sets the architecture that the packages are built on.
    pub fn arch_build(self, arch_build: String) -> (settings: Self)
        ensures
            settings@ == (BuildSettingsView { arch_build: Some(arch_build@), ..self@ }),
    {
        BuildSettings { arch_build: Some(arch_build), ..self }
    }

    /// Sets the build type.
    pub fn build_type(self, build_type: BuildType) -> (settings: Self)
        ensures
            settings@ == (BuildSettingsView { build_type: Some(build_type.spec_name()), ..self@ }),
    {
        BuildSettings { build_type: Some(String::from_str(build_type.as_str())), ..self }
    }

    /// Sets the compiler.
    pub fn compiler(self, compiler: String) -> (settings: Self)
        ensures
            settings@ == (BuildSettingsView { compiler: Some(compiler@), ..self@ }),
    {
        BuildSettings { compiler: Some(compiler), ..self }
    }

    /// Sets the standard library of the compiler.
    pub fn compiler_libcxx(self, compiler_libcxx: String) -> (settings: Self)
        ensures
            settings@ == (BuildSettingsView { compiler_libcxx: Some(compiler_libcxx@), ..self@ }),
    {
        BuildSettings { compiler_libcxx: Some(compiler_libcxx), ..self }
    }

    /// Sets the version of the compiler.
    pub fn compiler_version(self, compiler_version: String) -> (settings: Self)
        ensures
            settings@ == (BuildSettingsView { compiler_version: Some(compiler_version@), ..self@ }),
    {
        BuildSettings { compiler_version: Some(compiler_version), ..self }
    }

    /// Sets the operating system that the packages are built for.
    pub fn os(self, os: String) -> (settings: Self)
        ensures
            settings@ == (BuildSettingsView { os: Some(os@), ..self@ }),
    {
        BuildSettings { os: Some(os), ..self }
    }

    /// Sets the operating system that the packages are built on.
    pub fn os_build(self, os_build: String) -> (settings: Self)
        ensures
            settings@ == (BuildSettingsView { os_build: Some(os_build@), ..self@ }),
    {
        BuildSettings { os_build: Some(os_build), ..self }
    }
}

/// How many values there are: one if there is a value, none if not.
pub open spec fn value_count(value: Option<Seq<char>>) -> nat {
    if value is Some {
        1
    } else {
        0
    }
}

/// Whether the arguments come in pairs of which the first is `-s`.
pub open spec fn starts_pairs_with_flag(args: Seq<Seq<char>>) -> bool {
    &&& args.len() % 2 == 0
    &&& forall|i: int| 0 <= i < args.len() && i % 2 == 0 ==> #[trigger] args[i] == "-s"@
}

impl BuildSettingsView {
    /// How many settings have a value.
    pub open spec fn count(self) -> nat {
        value_count(self.arch) + value_count(self.arch_build) + value_count(self.build_type)
            + value_count(self.compiler) + value_count(self.compiler_libcxx) + value_count(
            self.compiler_version,
        ) + value_count(self.os) + value_count(self.os_build)
    }

    /// Each setting that has a value is rendered as one pair of arguments,
    /// and a setting without a value is not rendered at all: there are two
    /// arguments for each value, and the first of each pair is `-s`.
    pub proof fn lemma_one_pair_for_each_value(self)
        ensures
            self.args().len() == 2 * self.count(),
            starts_pairs_with_flag(self.args()),
    {
        let a = setting_args("arch="@, self.arch);
        let b = a + setting_args("arch_build="@, self.arch_build);
        let c = b + setting_args("build_type="@, self.build_type);
        let d = c + setting_args("compiler="@, self.compiler);
        let e = d + setting_args("compiler.libcxx="@, self.compiler_libcxx);
        let f = e + setting_args("compiler.version="@, self.compiler_version);
        let g = f + setting_args("os="@, self.os);
        assert(Seq::<Seq<char>>::empty() + a =~= a);
        lemma_pairs_go_on(Seq::empty(), "arch="@, self.arch);
        lemma_pairs_go_on(a, "arch_build="@, self.arch_build);
        lemma_pairs_go_on(b, "build_type="@, self.build_type);
        lemma_pairs_go_on(c, "compiler="@, self.compiler);
        lemma_pairs_go_on(d, "compiler.libcxx="@, self.compiler_libcxx);
        lemma_pairs_go_on(e, "compiler.version="@, self.compiler_version);
        lemma_pairs_go_on(f, "os="@, self.os);
        lemma_pairs_go_on(g, "os_build="@, self.os_build);
    }
}

/// Pairs that start with `-s` are still such pairs when what one more
/// setting contributes is appended.
proof fn lemma_pairs_go_on(args: Seq<Seq<char>>, key: Seq<char>, value: Option<Seq<char>>)
    requires
        starts_pairs_with_flag(args),
    ensures
        starts_pairs_with_flag(args + setting_args(key, value)),
        (args + setting_args(key, value)).len() == args.len() + 2 * value_count(value),
{
    let more = args + setting_args(key, value);
    assert forall|i: int| 0 <= i < more.len() && i % 2 == 0 implies #[trigger] more[i] == "-s"@ by {
        if i < args.len() {
            assert(more[i] == args[i]);
        } else {
            assert(more[i] == setting_args(key, value)[i - args.len()]);
        }
    }
}

} // verus!
