//! The build information that `conan install` generates: the file
//! `conanbuildinfo.json`, read into a typed model.
//!
//! The file is Conan's own: the library reads from it what it knows and
//! passes over the rest. A section that is missing, or `null`, is read as
//! empty; a section of the wrong kind (a number where a list is due) makes
//! the whole file unreadable.

pub mod build_settings;

use crate::build_info::build_settings::{BuildSettings, BuildSettingsView};
use crate::json::{
    as_items, as_object, as_text, entries, entries_view, find_present, items_view, json_document,
    json_view, option_view, parse_document, present_member, JsonView,
};
use vstd::prelude::*;

verus! {

/// What a [`BuildDependency`] holds.
pub struct BuildDependencyView {
    pub name: Seq<char>,
    pub version: Option<Seq<char>>,
    pub description: Option<Seq<char>>,
    pub rootpath: Option<Seq<char>>,
    pub sysroot: Option<Seq<char>>,
    pub include_paths: Seq<Seq<char>>,
    pub lib_paths: Seq<Seq<char>>,
    pub bin_paths: Seq<Seq<char>>,
    pub build_paths: Seq<Seq<char>>,
    pub res_paths: Seq<Seq<char>>,
    pub libs: Seq<Seq<char>>,
    pub defines: Seq<Seq<char>>,
    pub cflags: Seq<Seq<char>>,
    pub cxxflags: Seq<Seq<char>>,
    pub sharedlinkflags: Seq<Seq<char>>,
    pub exelinkflags: Seq<Seq<char>>,
}

/// What an [`EnvVariable`] holds.
pub struct EnvVariableView {
    pub name: Seq<char>,
    pub values: Seq<Seq<char>>,
}

/// What a [`BuildInfo`] holds.
pub struct BuildInfoView {
    pub dependencies: Seq<BuildDependencyView>,
    pub settings: BuildSettingsView,
    pub env: Seq<EnvVariableView>,
}

/// One package that the build depends on, as Conan resolved it.
#[derive(Debug)]
pub struct BuildDependency {
    pub name: String,
    pub version: Option<String>,
    pub description: Option<String>,
    pub rootpath: Option<String>,
    pub sysroot: Option<String>,
    pub include_paths: Vec<String>,
    pub lib_paths: Vec<String>,
    pub bin_paths: Vec<String>,
    pub build_paths: Vec<String>,
    pub res_paths: Vec<String>,
    pub libs: Vec<String>,
    pub defines: Vec<String>,
    pub cflags: Vec<String>,
    pub cxxflags: Vec<String>,
    pub sharedlinkflags: Vec<String>,
    pub exelinkflags: Vec<String>,
}

/// An environment variable that the dependencies ask for, with the values
/// assigned to it.
#[derive(Debug)]
pub struct EnvVariable {
    pub name: String,
    pub values: Vec<String>,
}

/// The build information of one `conan install`.
#[derive(Debug)]
pub struct BuildInfo {
    pub dependencies: Vec<BuildDependency>,
    pub settings: BuildSettings,
    pub env: Vec<EnvVariable>,
}

impl View for BuildDependency {
    type V = BuildDependencyView;

    open spec fn view(&self) -> BuildDependencyView {
        BuildDependencyView {
            name: self.name@,
            version: self.version.deep_view(),
            description: self.description.deep_view(),
            rootpath: self.rootpath.deep_view(),
            sysroot: self.sysroot.deep_view(),
            include_paths: self.include_paths.deep_view(),
            lib_paths: self.lib_paths.deep_view(),
            bin_paths: self.bin_paths.deep_view(),
            build_paths: self.build_paths.deep_view(),
            res_paths: self.res_paths.deep_view(),
            libs: self.libs.deep_view(),
            defines: self.defines.deep_view(),
            cflags: self.cflags.deep_view(),
            cxxflags: self.cxxflags.deep_view(),
            sharedlinkflags: self.sharedlinkflags.deep_view(),
            exelinkflags: self.exelinkflags.deep_view(),
        }
    }
}

impl DeepView for BuildDependency {
    type V = BuildDependencyView;

    open spec fn deep_view(&self) -> BuildDependencyView {
        self@
    }
}

impl View for EnvVariable {
    type V = EnvVariableView;

    open spec fn view(&self) -> EnvVariableView {
        EnvVariableView { name: self.name@, values: self.values.deep_view() }
    }
}

impl DeepView for EnvVariable {
    type V = EnvVariableView;

    open spec fn deep_view(&self) -> EnvVariableView {
        self@
    }
}

impl View for BuildInfo {
    type V = BuildInfoView;

    open spec fn view(&self) -> BuildInfoView {
        BuildInfoView {
            dependencies: self.dependencies.deep_view(),
            settings: self.settings@,
            env: self.env.deep_view(),
        }
    }
}

impl DeepView for BuildInfo {
    type V = BuildInfoView;

    open spec fn deep_view(&self) -> BuildInfoView {
        self@
    }
}

/// What was read of a text that may be missing: `Some(None)` where `value`
/// is missing, `Some(Some(..))` where it is a text, and `None` where it is
/// of another kind.
pub open spec fn optional_text(value: Option<JsonView>) -> Option<Option<Seq<char>>> {
    match value {
        None => Some(None),
        Some(JsonView::Text(text)) => Some(Some(text)),
        Some(_) => None,
    }
}

/// Whether every item is a text.
pub open spec fn all_texts(items: Seq<JsonView>) -> bool {
    forall|i: int| 0 <= i < items.len() ==> #[trigger] items[i] is Text
}

/// The texts that the items are.
pub open spec fn texts_of(items: Seq<JsonView>) -> Seq<Seq<char>> {
    Seq::new(items.len(), |i: int| items[i]->Text_0)
}

/// What was read of a list of texts: the texts, where `value` is an array
/// of texts, and `None` where it is anything else.
pub open spec fn text_list(value: JsonView) -> Option<Seq<Seq<char>>> {
    match value {
        JsonView::Array(items) => if all_texts(items) {
            Some(texts_of(items))
        } else {
            None
        },
        _ => None,
    }
}

/// What was read of a list of texts that may be missing: the empty list
/// where `value` is missing, else what [`text_list`] reads.
pub open spec fn optional_list(value: Option<JsonView>) -> Option<Seq<Seq<char>>> {
    match value {
        None => Some(Seq::empty()),
        Some(value) => text_list(value),
    }
}

/// What was read of the values of an environment variable: a text is one
/// value, an array of texts is as many as it has items, and anything else is
/// unreadable.
pub open spec fn env_values(value: JsonView) -> Option<Seq<Seq<char>>> {
    match value {
        JsonView::Text(text) => Some(seq![text]),
        _ => text_list(value),
    }
}

/// Whether every member has values that [`env_values`] reads.
pub open spec fn all_env_values(members: Seq<(Seq<char>, JsonView)>) -> bool {
    forall|i: int| 0 <= i < members.len() ==> env_values(#[trigger] members[i].1) is Some
}

/// The environment variables that the members are.
pub open spec fn env_variables_of(members: Seq<(Seq<char>, JsonView)>) -> Seq<EnvVariableView> {
    Seq::new(
        members.len(),
        |i: int| EnvVariableView { name: members[i].0, values: env_values(members[i].1)->0 },
    )
}

/// What was read of the environment: nothing where `value` is missing, a
/// variable for each member where it is an object whose members all have
/// readable values, and `None` where it is anything else.
pub open spec fn env_of(value: Option<JsonView>) -> Option<Seq<EnvVariableView>> {
    match value {
        None => Some(Seq::empty()),
        Some(JsonView::Object(members)) => if all_env_values(members) {
            Some(env_variables_of(members))
        } else {
            None
        },
        Some(_) => None,
    }
}

/// What was read of the settings: the empty settings where `value` is
/// missing, the settings that the members name where it is an object in
/// which each of them is a text or missing, and `None` where it is anything
/// else.
pub open spec fn settings_of(value: Option<JsonView>) -> Option<BuildSettingsView> {
    match value {
        None => Some(BuildSettingsView::empty()),
        Some(JsonView::Object(members)) => {
            let arch = optional_text(present_member(members, "arch"@));
            let arch_build = optional_text(present_member(members, "arch_build"@));
            let build_type = optional_text(present_member(members, "build_type"@));
            let compiler = optional_text(present_member(members, "compiler"@));
            let compiler_libcxx = optional_text(present_member(members, "compiler.libcxx"@));
            let compiler_version = optional_text(present_member(members, "compiler.version"@));
            let os = optional_text(present_member(members, "os"@));
            let os_build = optional_text(present_member(members, "os_build"@));
            if arch is Some && arch_build is Some && build_type is Some && compiler is Some
                && compiler_libcxx is Some && compiler_version is Some && os is Some && os_build
                is Some {
                Some(
                    BuildSettingsView {
                        arch: arch->0,
                        arch_build: arch_build->0,
                        build_type: build_type->0,
                        compiler: compiler->0,
                        compiler_libcxx: compiler_libcxx->0,
                        compiler_version: compiler_version->0,
                        os: os->0,
                        os_build: os_build->0,
                    },
                )
            } else {
                None
            }
        },
        Some(_) => None,
    }
}

/// What was read of a dependency: the dependency, where `value` is an
/// object with a name that is a text and in which every other member that
/// the library knows is of its kind or missing, and `None` where it is
/// anything else.
pub open spec fn dependency_of(value: JsonView) -> Option<BuildDependencyView> {
    match value {
        JsonView::Object(members) => {
            let name = optional_text(present_member(members, "name"@));
            let version = optional_text(present_member(members, "version"@));
            let description = optional_text(present_member(members, "description"@));
            let rootpath = optional_text(present_member(members, "rootpath"@));
            let sysroot = optional_text(present_member(members, "sysroot"@));
            let include_paths = optional_list(present_member(members, "include_paths"@));
            let lib_paths = optional_list(present_member(members, "lib_paths"@));
            let bin_paths = optional_list(present_member(members, "bin_paths"@));
            let build_paths = optional_list(present_member(members, "build_paths"@));
            let res_paths = optional_list(present_member(members, "res_paths"@));
            let libs = optional_list(present_member(members, "libs"@));
            let defines = optional_list(present_member(members, "defines"@));
            let cflags = optional_list(present_member(members, "cflags"@));
            let cxxflags = optional_list(present_member(members, "cxxflags"@));
            let sharedlinkflags = optional_list(present_member(members, "sharedlinkflags"@));
            let exelinkflags = optional_list(present_member(members, "exelinkflags"@));
            if name is Some && name->0 is Some && version is Some && description is Some && rootpath
                is Some && sysroot is Some && include_paths is Some && lib_paths is Some
                && bin_paths is Some && build_paths is Some && res_paths is Some && libs is Some
                && defines is Some && cflags is Some && cxxflags is Some && sharedlinkflags is Some
                && exelinkflags is Some {
                Some(
                    BuildDependencyView {
                        name: name->0->0,
                        version: version->0,
                        description: description->0,
                        rootpath: rootpath->0,
                        sysroot: sysroot->0,
                        include_paths: include_paths->0,
                        lib_paths: lib_paths->0,
                        bin_paths: bin_paths->0,
                        build_paths: build_paths->0,
                        res_paths: res_paths->0,
                        libs: libs->0,
                        defines: defines->0,
                        cflags: cflags->0,
                        cxxflags: cxxflags->0,
                        sharedlinkflags: sharedlinkflags->0,
                        exelinkflags: exelinkflags->0,
                    },
                )
            } else {
                None
            }
        },
        _ => None,
    }
}

/// Whether every item is a dependency that [`dependency_of`] reads.
pub open spec fn all_dependencies(items: Seq<JsonView>) -> bool {
    forall|i: int| 0 <= i < items.len() ==> dependency_of(#[trigger] items[i]) is Some
}

/// What was read of the dependencies: none where `value` is missing, the
/// dependencies where it is an array of which [`dependency_of`] reads every
/// item, and `None` where it is anything else.
pub open spec fn dependencies_of(value: Option<JsonView>) -> Option<Seq<BuildDependencyView>> {
    match value {
        None => Some(Seq::empty()),
        Some(JsonView::Array(items)) => if all_dependencies(items) {
            Some(Seq::new(items.len(), |i: int| dependency_of(items[i])->0))
        } else {
            None
        },
        Some(_) => None,
    }
}

/// The build information that a JSON document holds: that of its
/// `dependencies`, its `settings` and its `deps_env_info`, where the
/// document is an object and each of the three is readable or missing, and
/// `None` where it is anything else.
pub open spec fn build_info_of(document: JsonView) -> Option<BuildInfoView> {
    match document {
        JsonView::Object(members) => {
            let dependencies = dependencies_of(present_member(members, "dependencies"@));
            let settings = settings_of(present_member(members, "settings"@));
            let env = env_of(present_member(members, "deps_env_info"@));
            if dependencies is Some && settings is Some && env is Some {
                Some(
                    BuildInfoView {
                        dependencies: dependencies->0,
                        settings: settings->0,
                        env: env->0,
                    },
                )
            } else {
                None
            }
        },
        _ => None,
    }
}

/// The build information that a text holds: that of the JSON document that
/// the text is, and `None` for a text that is no JSON document.
pub open spec fn build_info_in(text: Seq<char>) -> Option<BuildInfoView> {
    match json_document(text) {
        Some(document) => build_info_of(document),
        None => None,
    }
}

/// Reads a text that may be missing.
fn read_text(value: Option<&serde_json::Value>) -> (text: Option<Option<String>>)
    ensures
        text.deep_view() == optional_text(option_view(value)),
{
    match value {
        None => Some(None),
        Some(value) => match as_text(value) {
            Some(text) => Some(Some(String::from_str(text))),
            None => None,
        },
    }
}

/// Reads a list of texts.
fn read_list(value: &serde_json::Value) -> (texts: Option<Vec<String>>)
    ensures
        texts.deep_view() == text_list(json_view(*value)),
{
    match as_items(value) {
        None => None,
        Some(items) => {
            let ghost trees = items_view(items@);
            let mut texts: Vec<String> = Vec::new();
            let mut i: usize = 0;
            while i < items.len()
                invariant
                    i <= items.len(),
                    trees == items_view(items@),
                    json_view(*value) == JsonView::Array(trees),
                    forall|k: int| 0 <= k < i ==> #[trigger] trees[k] is Text,
                    texts.len() == i,
                    forall|k: int| 0 <= k < i ==> (#[trigger] texts@[k])@ == trees[k]->Text_0,
                decreases items.len() - i,
            {
                assert(trees[i as int] == json_view(items@[i as int]));
                match as_text(&items[i]) {
                    Some(text) => {
                        texts.push(String::from_str(text));
                    },
                    None => {
                        assert(!(trees[i as int] is Text));
                        return None;
                    },
                }
                i += 1;
            }
            assert(texts.deep_view() =~= texts_of(trees));
            Some(texts)
        },
    }
}

/// Reads a list of texts that may be missing.
fn read_optional_list(value: Option<&serde_json::Value>) -> (texts: Option<Vec<String>>)
    ensures
        texts.deep_view() == optional_list(option_view(value)),
{
    match value {
        None => {
            let texts: Vec<String> = Vec::new();
            assert(texts.deep_view() =~= Seq::<Seq<char>>::empty());
            Some(texts)
        },
        Some(value) => read_list(value),
    }
}

/// Reads the values of an environment variable.
fn read_env_values(value: &serde_json::Value) -> (values: Option<Vec<String>>)
    ensures
        values.deep_view() == env_values(json_view(*value)),
{
    match as_text(value) {
        Some(text) => {
            let mut values: Vec<String> = Vec::new();
            values.push(String::from_str(text));
            assert(values.deep_view() =~= seq![text@]);
            Some(values)
        },
        None => read_list(value),
    }
}

/// Reads the environment.
fn read_env(value: Option<&serde_json::Value>) -> (env: Option<Vec<EnvVariable>>)
    ensures
        env.deep_view() == env_of(option_view(value)),
{
    let mut env: Vec<EnvVariable> = Vec::new();
    match value {
        None => {
            assert(env.deep_view() =~= Seq::<EnvVariableView>::empty());
            Some(env)
        },
        Some(section) => match as_object(section) {
            None => None,
            Some(object) => {
                let entries = entries(object);
                let ghost members = entries_view(entries@);
                let mut i: usize = 0;
                while i < entries.len()
                    invariant
                        i <= entries.len(),
                        members == entries_view(entries@),
                        option_view(value) == Some(JsonView::Object(members)),
                        forall|k: int| 0 <= k < i ==> env_values(#[trigger] members[k].1) is Some,
                        env.len() == i,
                        forall|k: int|
                            0 <= k < i ==> (#[trigger] env@[k])@ == env_variables_of(members)[k],
                    decreases entries.len() - i,
                {
                    let (name, assigned) = entries[i];
                    assert(members[i as int] == (name@, json_view(*assigned)));
                    match read_env_values(assigned) {
                        Some(values) => {
                            env.push(EnvVariable { name: name.clone(), values });
                        },
                        None => {
                            assert(env_values(members[i as int].1) is None);
                            return None;
                        },
                    }
                    i += 1;
                }
                assert(env.deep_view() =~= env_variables_of(members));
                Some(env)
            },
        },
    }
}

/// Reads the settings.
fn read_settings(value: Option<&serde_json::Value>) -> (settings: Option<BuildSettings>)
    ensures
        settings.deep_view() == settings_of(option_view(value)),
{
    match value {
        None => Some(BuildSettings::new()),
        Some(value) => match as_object(value) {
            None => None,
            Some(object) => {
                let entries = entries(object);
                let arch = read_text(find_present(&entries, "arch"))?;
                let arch_build = read_text(find_present(&entries, "arch_build"))?;
                let build_type = read_text(find_present(&entries, "build_type"))?;
                let compiler = read_text(find_present(&entries, "compiler"))?;
                let compiler_libcxx = read_text(find_present(&entries, "compiler.libcxx"))?;
                let compiler_version = read_text(find_present(&entries, "compiler.version"))?;
                let os = read_text(find_present(&entries, "os"))?;
                let os_build = read_text(find_present(&entries, "os_build"))?;
                Some(
                    BuildSettings {
                        arch,
                        arch_build,
                        build_type,
                        compiler,
                        compiler_libcxx,
                        compiler_version,
                        os,
                        os_build,
                    },
                )
            },
        },
    }
}

/// Reads a dependency.
fn read_dependency(value: &serde_json::Value) -> (dependency: Option<BuildDependency>)
    ensures
        dependency.deep_view() == dependency_of(json_view(*value)),
{
    match as_object(value) {
        None => None,
        Some(object) => {
            let entries = entries(object);
            let name = match read_text(find_present(&entries, "name")) {
                Some(Some(name)) => name,
                _ => {
                    return None;
                },
            };
            let version = read_text(find_present(&entries, "version"))?;
            let description = read_text(find_present(&entries, "description"))?;
            let rootpath = read_text(find_present(&entries, "rootpath"))?;
            let sysroot = read_text(find_present(&entries, "sysroot"))?;
            let include_paths = read_optional_list(find_present(&entries, "include_paths"))?;
            let lib_paths = read_optional_list(find_present(&entries, "lib_paths"))?;
            let bin_paths = read_optional_list(find_present(&entries, "bin_paths"))?;
            let build_paths = read_optional_list(find_present(&entries, "build_paths"))?;
            let res_paths = read_optional_list(find_present(&entries, "res_paths"))?;
            let libs = read_optional_list(find_present(&entries, "libs"))?;
            let defines = read_optional_list(find_present(&entries, "defines"))?;
            let cflags = read_optional_list(find_present(&entries, "cflags"))?;
            let cxxflags = read_optional_list(find_present(&entries, "cxxflags"))?;
            let sharedlinkflags = read_optional_list(find_present(&entries, "sharedlinkflags"))?;
            let exelinkflags = read_optional_list(find_present(&entries, "exelinkflags"))?;
            Some(
                BuildDependency {
                    name,
                    version,
                    description,
                    rootpath,
                    sysroot,
                    include_paths,
                    lib_paths,
                    bin_paths,
                    build_paths,
                    res_paths,
                    libs,
                    defines,
                    cflags,
                    cxxflags,
                    sharedlinkflags,
                    exelinkflags,
                },
            )
        },
    }
}

/// Reads the dependencies.
fn read_dependencies(value: Option<&serde_json::Value>) -> (dependencies: Option<
    Vec<BuildDependency>,
>)
    ensures
        dependencies.deep_view() == dependencies_of(option_view(value)),
{
    let mut dependencies: Vec<BuildDependency> = Vec::new();
    match value {
        None => {
            assert(dependencies.deep_view() =~= Seq::<BuildDependencyView>::empty());
            Some(dependencies)
        },
        Some(section) => match as_items(section) {
            None => None,
            Some(items) => {
                let ghost trees = items_view(items@);
                let mut i: usize = 0;
                while i < items.len()
                    invariant
                        i <= items.len(),
                        trees == items_view(items@),
                        option_view(value) == Some(JsonView::Array(trees)),
                        forall|k: int| 0 <= k < i ==> dependency_of(#[trigger] trees[k]) is Some,
                        dependencies.len() == i,
                        forall|k: int|
                            0 <= k < i ==> (#[trigger] dependencies@[k])@ == dependency_of(
                                trees[k],
                            )->0,
                    decreases items.len() - i,
                {
                    assert(trees[i as int] == json_view(items@[i as int]));
                    match read_dependency(&items[i]) {
                        Some(dependency) => {
                            dependencies.push(dependency);
                        },
                        None => {
                            assert(dependency_of(trees[i as int]) is None);
                            return None;
                        },
                    }
                    i += 1;
                }
                assert(dependencies.deep_view() =~= Seq::new(
                    trees.len(),
                    |i: int| dependency_of(trees[i])->0,
                ));
                Some(dependencies)
            },
        },
    }
}

impl BuildInfo {
    /// Reads the build information from a JSON value. See [`build_info_of`]
    /// for what is read: a missing section is empty, and a section of the
    /// wrong kind leaves nothing.
    pub fn from_value(value: &serde_json::Value) -> (info: Option<BuildInfo>)
        ensures
            info.deep_view() == build_info_of(json_view(*value)),
    {
        match as_object(value) {
            None => None,
            Some(object) => {
                let entries = entries(object);
                let dependencies = read_dependencies(find_present(&entries, "dependencies"))?;
                let settings = read_settings(find_present(&entries, "settings"))?;
                let env = read_env(find_present(&entries, "deps_env_info"))?;
                Some(BuildInfo { dependencies, settings, env })
            },
        }
    }

    /// Reads the build information from the text of `conanbuildinfo.json`.
    /// A text that is no JSON document leaves nothing, and so does a
    /// document that [`BuildInfo::from_value`] does not read.
    pub fn from_str(json: &str) -> (info: Option<BuildInfo>)
        ensures
            info.deep_view() == build_info_in(json@),
    {
        match parse_document(json) {
            Some(value) => BuildInfo::from_value(&value),
            None => None,
        }
    }
}

impl BuildInfoView {
    /// The build information that holds nothing.
    pub open spec fn empty() -> Self {
        BuildInfoView {
            dependencies: Seq::empty(),
            settings: BuildSettingsView::empty(),
            env: Seq::empty(),
        }
    }
}

/// Whether the dependency at `at` is the first that is called `name`.
pub open spec fn is_first_named(
    dependencies: Seq<BuildDependencyView>,
    name: Seq<char>,
    at: int,
) -> bool {
    &&& 0 <= at < dependencies.len()
    &&& dependencies[at].name == name
    &&& forall|i: int| 0 <= i < at ==> (#[trigger] dependencies[i]).name != name
}

/// Whether the variable at `at` is the first that is called `name`.
pub open spec fn is_first_variable(env: Seq<EnvVariableView>, name: Seq<char>, at: int) -> bool {
    &&& 0 <= at < env.len()
    &&& env[at].name == name
    &&& forall|i: int| 0 <= i < at ==> (#[trigger] env[i]).name != name
}

/// A document that is an object without dependencies, settings and
/// environment holds the empty build information: none of the three is
/// needed.
pub proof fn lemma_missing_sections_are_empty(members: Seq<(Seq<char>, JsonView)>)
    requires
        present_member(members, "dependencies"@) is None,
        present_member(members, "settings"@) is None,
        present_member(members, "deps_env_info"@) is None,
    ensures
        build_info_of(JsonView::Object(members)) == Some(BuildInfoView::empty()),
{
}

/// The object without members, `{}`, holds the empty build information.
pub proof fn lemma_empty_object_is_empty()
    ensures
        build_info_of(JsonView::Object(Seq::empty())) == Some(BuildInfoView::empty()),
{
    lemma_missing_sections_are_empty(Seq::empty());
}

/// The first of `texts`, where there is one.
fn first_of(texts: &Vec<String>) -> (first: Option<&str>)
    ensures
        match first {
            Some(first) => texts.len() > 0 && first@ == texts[0]@,
            None => texts.len() == 0,
        },
{
    if texts.len() > 0 {
        Some(texts[0].as_str())
    } else {
        None
    }
}

impl BuildDependency {
    /// The directory that the package is installed in.
    pub fn get_root_dir(&self) -> (dir: Option<&str>)
        ensures
            match dir {
                Some(dir) => self.rootpath matches Some(path) && dir@ == path@,
                None => self.rootpath is None,
            },
    {
        match &self.rootpath {
            Some(path) => Some(path.as_str()),
            None => None,
        }
    }

    /// The first of the directories that hold the libraries of the package.
    pub fn get_library_dir(&self) -> (dir: Option<&str>)
        ensures
            match dir {
                Some(dir) => self.lib_paths.len() > 0 && dir@ == self.lib_paths[0]@,
                None => self.lib_paths.len() == 0,
            },
    {
        first_of(&self.lib_paths)
    }

    /// The first of the directories that hold the headers of the package.
    pub fn get_include_dir(&self) -> (dir: Option<&str>)
        ensures
            match dir {
                Some(dir) => self.include_paths.len() > 0 && dir@ == self.include_paths[0]@,
                None => self.include_paths.len() == 0,
            },
    {
        first_of(&self.include_paths)
    }

    /// The first of the directories that hold the programs of the package.
    pub fn get_binary_dir(&self) -> (dir: Option<&str>)
        ensures
            match dir {
                Some(dir) => self.bin_paths.len() > 0 && dir@ == self.bin_paths[0]@,
                None => self.bin_paths.len() == 0,
            },
    {
        first_of(&self.bin_paths)
    }
}

impl BuildInfo {
    /// The dependencies, in the order of the file.
    pub fn dependencies(&self) -> (dependencies: &Vec<BuildDependency>)
        ensures
            dependencies == self.dependencies,
    {
        &self.dependencies
    }

    /// The settings that the dependencies were resolved for.
    pub fn settings(&self) -> (settings: &BuildSettings)
        ensures
            settings == self.settings,
    {
        &self.settings
    }

    /// The first dependency that is called `name`, and `None` where none is.
    pub fn get_dependency(&self, name: &str) -> (dependency: Option<&BuildDependency>)
        ensures
            match dependency {
                Some(dependency) => exists|at: int|
                    is_first_named(self@.dependencies, name@, at) && *dependency
                        == #[trigger] self.dependencies[at],
                None => forall|i: int|
                    0 <= i < self@.dependencies.len() ==> (#[trigger] self@.dependencies[i]).name
                        != name@,
            },
    {
        let wanted = String::from_str(name);
        let mut i: usize = 0;
        while i < self.dependencies.len()
            invariant
                i <= self.dependencies.len(),
                wanted@ == name@,
                forall|k: int| 0 <= k < i ==> (#[trigger] self@.dependencies[k]).name != name@,
            decreases self.dependencies.len() - i,
        {
            assert(self@.dependencies[i as int] == self.dependencies[i as int]@);
            if self.dependencies[i].name == wanted {
                assert(is_first_named(self@.dependencies, name@, i as int));
                return Some(&self.dependencies[i]);
            }
            i += 1;
        }
        None
    }

    /// The first environment variable that is called `name`, and `None`
    /// where none is.
    pub fn get_env(&self, name: &str) -> (variable: Option<&EnvVariable>)
        ensures
            match variable {
                Some(variable) => exists|at: int|
                    is_first_variable(self@.env, name@, at) && *variable == #[trigger] self.env[at],
                None => forall|i: int|
                    0 <= i < self@.env.len() ==> (#[trigger] self@.env[i]).name != name@,
            },
    {
        let wanted = String::from_str(name);
        let mut i: usize = 0;
        while i < self.env.len()
            invariant
                i <= self.env.len(),
                wanted@ == name@,
                forall|k: int| 0 <= k < i ==> (#[trigger] self@.env[k]).name != name@,
            decreases self.env.len() - i,
        {
            assert(self@.env[i as int] == self.env[i as int]@);
            if self.env[i].name == wanted {
                assert(is_first_variable(self@.env, name@, i as int));
                return Some(&self.env[i]);
            }
            i += 1;
        }
        None
    }
}

} // verus!
