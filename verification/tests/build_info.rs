use conan::build_info::build_settings::{BuildSettings, BuildType};
use conan::build_info::BuildInfo;

#[test]
fn empty_object_is_empty_build_info() {
    let info = BuildInfo::from_str("{}").unwrap();
    assert!(info.dependencies().is_empty());
    assert!(info.env.is_empty());
    assert!(info.settings().args().is_empty());
    assert!(info.settings().arch.is_none());
    assert!(info.settings().build_type.is_none());
    assert!(info.get_dependency("zlib").is_none());
}

#[test]
fn null_sections_are_missing_sections() {
    let info =
        BuildInfo::from_str("{\"dependencies\": null, \"settings\": null, \"deps_env_info\": null}")
            .unwrap();
    assert!(info.dependencies().is_empty());
    assert!(info.env.is_empty());
    assert!(info.settings().args().is_empty());
}

#[test]
fn unknown_sections_are_passed_over() {
    let info = BuildInfo::from_str(
        "{\"options\": {\"shared\": true}, \"deps_user_info\": {}, \"count\": 3, \"dependencies\": []}",
    )
    .unwrap();
    assert!(info.dependencies().is_empty());
}

#[test]
fn text_that_is_no_json_is_no_build_info() {
    assert!(BuildInfo::from_str("").is_none());
    assert!(BuildInfo::from_str("{").is_none());
    assert!(BuildInfo::from_str("{} trailing").is_none());
    assert!(BuildInfo::from_str("not json").is_none());
}

#[test]
fn document_that_is_no_object_is_no_build_info() {
    assert!(BuildInfo::from_str("[]").is_none());
    assert!(BuildInfo::from_str("null").is_none());
    assert!(BuildInfo::from_str("3").is_none());
    assert!(BuildInfo::from_str("\"text\"").is_none());
    assert!(BuildInfo::from_str("true").is_none());
}

#[test]
fn sections_of_the_wrong_kind_are_no_build_info() {
    assert!(BuildInfo::from_str("{\"dependencies\": {}}").is_none());
    assert!(BuildInfo::from_str("{\"dependencies\": 3}").is_none());
    assert!(BuildInfo::from_str("{\"dependencies\": [3]}").is_none());
    assert!(BuildInfo::from_str("{\"dependencies\": [{}]}").is_none());
    assert!(BuildInfo::from_str("{\"dependencies\": [{\"name\": null}]}").is_none());
    assert!(BuildInfo::from_str("{\"dependencies\": [{\"name\": 3}]}").is_none());
    assert!(BuildInfo::from_str("{\"dependencies\": [{\"name\": \"a\", \"libs\": \"z\"}]}").is_none());
    assert!(BuildInfo::from_str("{\"dependencies\": [{\"name\": \"a\", \"libs\": [1]}]}").is_none());
    assert!(BuildInfo::from_str("{\"dependencies\": [{\"name\": \"a\", \"version\": 1}]}").is_none());
    assert!(BuildInfo::from_str("{\"settings\": []}").is_none());
    assert!(BuildInfo::from_str("{\"settings\": \"x\"}").is_none());
    assert!(BuildInfo::from_str("{\"settings\": {\"arch\": 64}}").is_none());
    assert!(BuildInfo::from_str("{\"deps_env_info\": []}").is_none());
    assert!(BuildInfo::from_str("{\"deps_env_info\": {\"PATH\": 3}}").is_none());
    assert!(BuildInfo::from_str("{\"deps_env_info\": {\"PATH\": [3]}}").is_none());
    assert!(BuildInfo::from_str("{\"deps_env_info\": {\"PATH\": null}}").is_none());
}

const SAMPLE: &str = r#"{
  "deps_env_info": {
    "PATH": ["/conan/openssl/bin", "/conan/zlib/bin"],
    "OPENSSL_ROOT": "/conan/openssl",
    "EMPTY": []
  },
  "deps_user_info": {"openssl": {}},
  "dependencies": [
    {
      "version": "1.1.1d",
      "description": "A toolkit for TLS",
      "rootpath": "/conan/openssl",
      "sysroot": "",
      "include_paths": ["/conan/openssl/include"],
      "lib_paths": ["/conan/openssl/lib", "/conan/openssl/lib64"],
      "bin_paths": ["/conan/openssl/bin"],
      "build_paths": ["/conan/openssl/"],
      "res_paths": [],
      "libs": ["ssl", "crypto", "dl", "pthread"],
      "defines": ["OPENSSL_NO_ASM", "WITH_ZLIB=1"],
      "cflags": ["-fPIC"],
      "cxxflags": ["-std=c++11"],
      "sharedlinkflags": ["-shared"],
      "exelinkflags": ["-pie"],
      "frameworks": [],
      "name": "openssl"
    },
    {
      "name": "zlib",
      "description": null,
      "libs": ["z"]
    }
  ],
  "settings": {
    "arch": "x86_64",
    "arch_build": "x86_64",
    "build_type": "Release",
    "compiler": "gcc",
    "compiler.libcxx": "libstdc++11",
    "compiler.version": "9",
    "os": "Linux",
    "os_build": "Linux"
  },
  "options": {"shared": "False"}
}"#;

#[test]
fn dependencies_are_read_in_order() {
    let info = BuildInfo::from_str(SAMPLE).unwrap();
    let dependencies = info.dependencies();
    assert_eq!(dependencies.len(), 2);
    let openssl = &dependencies[0];
    assert_eq!(openssl.name, "openssl");
    assert_eq!(openssl.version.as_deref(), Some("1.1.1d"));
    assert_eq!(openssl.description.as_deref(), Some("A toolkit for TLS"));
    assert_eq!(openssl.rootpath.as_deref(), Some("/conan/openssl"));
    assert_eq!(openssl.sysroot.as_deref(), Some(""));
    assert_eq!(openssl.include_paths, ["/conan/openssl/include"]);
    assert_eq!(openssl.lib_paths, ["/conan/openssl/lib", "/conan/openssl/lib64"]);
    assert_eq!(openssl.bin_paths, ["/conan/openssl/bin"]);
    assert_eq!(openssl.build_paths, ["/conan/openssl/"]);
    assert!(openssl.res_paths.is_empty());
    assert_eq!(openssl.libs, ["ssl", "crypto", "dl", "pthread"]);
    assert_eq!(openssl.defines, ["OPENSSL_NO_ASM", "WITH_ZLIB=1"]);
    assert_eq!(openssl.cflags, ["-fPIC"]);
    assert_eq!(openssl.cxxflags, ["-std=c++11"]);
    assert_eq!(openssl.sharedlinkflags, ["-shared"]);
    assert_eq!(openssl.exelinkflags, ["-pie"]);
    let zlib = &dependencies[1];
    assert_eq!(zlib.name, "zlib");
    assert_eq!(zlib.version, None);
    assert_eq!(zlib.description, None);
    assert_eq!(zlib.rootpath, None);
    assert_eq!(zlib.libs, ["z"]);
    assert!(zlib.include_paths.is_empty());
    assert!(zlib.defines.is_empty());
}

#[test]
fn dependency_is_found_by_name() {
    let info = BuildInfo::from_str(SAMPLE).unwrap();
    let openssl = info.get_dependency("openssl").unwrap();
    assert_eq!(openssl.get_root_dir(), Some("/conan/openssl"));
    assert_eq!(openssl.get_library_dir(), Some("/conan/openssl/lib"));
    assert_eq!(openssl.get_include_dir(), Some("/conan/openssl/include"));
    assert_eq!(openssl.get_binary_dir(), Some("/conan/openssl/bin"));
    let zlib = info.get_dependency("zlib").unwrap();
    assert_eq!(zlib.get_root_dir(), None);
    assert_eq!(zlib.get_library_dir(), None);
    assert_eq!(zlib.get_include_dir(), None);
    assert_eq!(zlib.get_binary_dir(), None);
    assert!(info.get_dependency("boost").is_none());
    assert!(info.get_dependency("").is_none());
    assert!(info.get_dependency("OpenSSL").is_none());
}

#[test]
fn first_dependency_of_a_name_is_found() {
    let info = BuildInfo::from_str(
        "{\"dependencies\": [{\"name\": \"a\", \"version\": \"1\"}, {\"name\": \"b\"}, {\"name\": \"a\", \"version\": \"2\"}]}",
    )
    .unwrap();
    assert_eq!(info.get_dependency("a").unwrap().version.as_deref(), Some("1"));
    assert_eq!(info.get_dependency("b").unwrap().version, None);
}

#[test]
fn settings_are_read() {
    let info = BuildInfo::from_str(SAMPLE).unwrap();
    let settings = info.settings();
    assert_eq!(settings.arch.as_deref(), Some("x86_64"));
    assert_eq!(settings.arch_build.as_deref(), Some("x86_64"));
    assert_eq!(settings.build_type.as_deref(), Some("Release"));
    assert_eq!(settings.compiler.as_deref(), Some("gcc"));
    assert_eq!(settings.compiler_libcxx.as_deref(), Some("libstdc++11"));
    assert_eq!(settings.compiler_version.as_deref(), Some("9"));
    assert_eq!(settings.os.as_deref(), Some("Linux"));
    assert_eq!(settings.os_build.as_deref(), Some("Linux"));
}

#[test]
fn settings_that_are_missing_stay_missing() {
    let info =
        BuildInfo::from_str("{\"settings\": {\"os\": \"Linux\", \"arch\": null, \"cppstd\": 17}}")
            .unwrap();
    let settings = info.settings();
    assert_eq!(settings.os.as_deref(), Some("Linux"));
    assert_eq!(settings.arch, None);
    assert_eq!(settings.compiler, None);
    assert_eq!(settings.args(), ["-s", "os=Linux"]);
}

#[test]
fn environment_is_read() {
    let info = BuildInfo::from_str(SAMPLE).unwrap();
    assert_eq!(info.env.len(), 3);
    let path = info.get_env("PATH").unwrap();
    assert_eq!(path.name, "PATH");
    assert_eq!(path.values, ["/conan/openssl/bin", "/conan/zlib/bin"]);
    let root = info.get_env("OPENSSL_ROOT").unwrap();
    assert_eq!(root.values, ["/conan/openssl"]);
    let empty = info.get_env("EMPTY").unwrap();
    assert!(empty.values.is_empty());
    assert!(info.get_env("HOME").is_none());
    let mut names: Vec<&str> = info.env.iter().map(|variable| variable.name.as_str()).collect();
    names.sort();
    assert_eq!(names, ["EMPTY", "OPENSSL_ROOT", "PATH"]);
}

#[test]
fn value_is_read_as_its_text_is() {
    let value = serde_json::from_str::<serde_json::Value>(SAMPLE).unwrap();
    let from_value = BuildInfo::from_value(&value).unwrap();
    let from_text = BuildInfo::from_str(SAMPLE).unwrap();
    assert_eq!(from_value.dependencies().len(), from_text.dependencies().len());
    assert_eq!(from_value.dependencies()[0].libs, from_text.dependencies()[0].libs);
    assert_eq!(from_value.settings().args(), from_text.settings().args());
}

#[test]
fn value_built_by_hand_is_read() {
    let mut dependency = serde_json::Map::new();
    dependency.insert(String::from("name"), serde_json::Value::String(String::from("fmt")));
    dependency.insert(
        String::from("libs"),
        serde_json::Value::Array(vec![serde_json::Value::String(String::from("fmt"))]),
    );
    dependency.insert(String::from("version"), serde_json::Value::Null);
    let mut document = serde_json::Map::new();
    document.insert(
        String::from("dependencies"),
        serde_json::Value::Array(vec![serde_json::Value::Object(dependency)]),
    );
    let info = BuildInfo::from_value(&serde_json::Value::Object(document)).unwrap();
    assert_eq!(info.dependencies().len(), 1);
    assert_eq!(info.dependencies()[0].name, "fmt");
    assert_eq!(info.dependencies()[0].libs, ["fmt"]);
    assert_eq!(info.dependencies()[0].version, None);
    assert!(BuildInfo::from_value(&serde_json::Value::Null).is_none());
    assert!(BuildInfo::from_value(&serde_json::Value::Bool(true)).is_none());
    assert!(BuildInfo::from_value(&serde_json::Value::Array(Vec::new())).is_none());
    assert!(BuildInfo::from_value(&serde_json::Value::Object(serde_json::Map::new())).is_some());
}

#[test]
fn settings_render_in_a_fixed_order() {
    let settings = BuildSettings::new()
        .os_build(String::from("Linux"))
        .os(String::from("Windows"))
        .compiler_version(String::from("9"))
        .compiler_libcxx(String::from("libstdc++11"))
        .compiler(String::from("gcc"))
        .build_type(BuildType::MinSizeRel)
        .arch_build(String::from("x86_64"))
        .arch(String::from("armv8"));
    assert_eq!(
        settings.args(),
        [
            "-s",
            "arch=armv8",
            "-s",
            "arch_build=x86_64",
            "-s",
            "build_type=MinSizeRel",
            "-s",
            "compiler=gcc",
            "-s",
            "compiler.libcxx=libstdc++11",
            "-s",
            "compiler.version=9",
            "-s",
            "os=Windows",
            "-s",
            "os_build=Linux"
        ]
    );
}

#[test]
fn settings_without_values_render_nothing() {
    assert!(BuildSettings::new().args().is_empty());
    assert!(BuildSettings::default().args().is_empty());
}

#[test]
fn one_setting_renders_one_pair() {
    assert_eq!(BuildSettings::new().build_type(BuildType::Release).args(), ["-s", "build_type=Release"]);
    assert_eq!(BuildSettings::new().compiler(String::from("clang")).args(), ["-s", "compiler=clang"]);
    assert_eq!(BuildSettings::new().arch(String::new()).args(), ["-s", "arch="]);
}

#[test]
fn build_types_have_conan_names() {
    assert_eq!(BuildType::Unspecified.as_str(), "None");
    assert_eq!(BuildType::Debug.as_str(), "Debug");
    assert_eq!(BuildType::Release.as_str(), "Release");
    assert_eq!(BuildType::RelWithDebInfo.as_str(), "RelWithDebInfo");
    assert_eq!(BuildType::MinSizeRel.as_str(), "MinSizeRel");
}

#[test]
fn settings_render_the_same_twice() {
    let settings = BuildSettings::new().os(String::from("Linux")).build_type(BuildType::Debug);
    assert_eq!(settings.args(), settings.args());
}
