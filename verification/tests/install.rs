use conan::build_info::build_settings::{BuildSettings, BuildType};
use conan::install::generate::{GenerateAction, GenerateEvent};
use conan::version::ConanApi;
use conan::{BuildPolicy, Environment, InstallCommandBuilder};

fn host(out_dir: Option<&str>, current_dir: Option<&str>) -> Environment {
    Environment {
        conan: None,
        conan_on_path: Some(String::from("/usr/bin/conan")),
        out_dir: out_dir.map(String::from),
        current_dir: current_dir.map(String::from),
    }
}

#[test]
fn test_install_builder() {
    let build_settings = BuildSettings::new().build_type(BuildType::Release);
    let command = InstallCommandBuilder::new()
        .with_profile("linux-x86_64")
        .build_settings(build_settings)
        .build_policy(BuildPolicy::Missing)
        .build();
    assert_eq!(
        command.args(&host(None, Some("/work"))),
        [
            "install",
            "-g",
            "json",
            "-pr",
            "linux-x86_64",
            "-b",
            "missing",
            "-s",
            "build_type=Release"
        ]
    );
}

#[test]
fn default_command_renders_subcommand_and_generator_only() {
    let command = InstallCommandBuilder::default().build();
    assert_eq!(command.args(&host(None, Some("/work"))), ["install", "-g", "json"]);
    assert_eq!(command.args(&host(None, None)), ["install", "-g", "json"]);
}

#[test]
fn build_policy_never() {
    assert_eq!(BuildPolicy::Never.args(), ["-b", "never"]);
    let command = InstallCommandBuilder::new().build_policy(BuildPolicy::Never).build();
    assert_eq!(
        command.args(&host(None, Some("/work"))),
        ["install", "-g", "json", "-b", "never"]
    );
}

#[test]
fn build_policy_always_has_no_value() {
    assert_eq!(BuildPolicy::Always.args(), ["-b"]);
    let command = InstallCommandBuilder::new().build_policy(BuildPolicy::Always).build();
    assert_eq!(command.args(&host(None, Some("/work"))), ["install", "-g", "json", "-b"]);
}

#[test]
fn build_policy_missing() {
    assert_eq!(BuildPolicy::Missing.args(), ["-b", "missing"]);
}

#[test]
fn build_policy_outdated() {
    assert_eq!(BuildPolicy::Outdated.args(), ["-b", "outdated"]);
    let command = InstallCommandBuilder::new().build_policy(BuildPolicy::Outdated).build();
    assert_eq!(
        command.args(&host(None, Some("/work"))),
        ["install", "-g", "json", "-b", "outdated"]
    );
}

#[test]
fn rendering_twice_gives_the_same_arguments() {
    let settings = BuildSettings::new()
        .arch(String::from("x86_64"))
        .compiler(String::from("gcc"))
        .build_type(BuildType::Debug);
    let command = InstallCommandBuilder::new()
        .with_conan_api(ConanApi::V1)
        .with_profile("default")
        .with_remote("conan-center")
        .build_settings(settings)
        .build_policy(BuildPolicy::Outdated)
        .recipe_path("conanfile.txt")
        .output_dir("/out")
        .update_check()
        .build();
    let env = host(Some("/target"), Some("/work"));
    let first = command.args(&env);
    let second = command.args(&env);
    assert_eq!(first, second);
}

#[test]
fn every_part_in_order() {
    let settings = BuildSettings::new()
        .arch(String::from("x86_64"))
        .build_type(BuildType::RelWithDebInfo);
    let command = InstallCommandBuilder::new()
        .recipe_path("recipes/conanfile.py")
        .update_check()
        .output_dir("/out")
        .build_policy(BuildPolicy::Missing)
        .build_settings(settings)
        .with_remote("artifactory")
        .with_profile("default")
        .with_conan_api(ConanApi::V1)
        .build();
    assert_eq!(
        command.args(&host(None, Some("/work"))),
        [
            "install",
            "-g",
            "json",
            "-pr",
            "default",
            "-r",
            "artifactory",
            "-u",
            "-b",
            "missing",
            "--output-folder",
            "/out",
            "--install-folder",
            "/out",
            "-s",
            "arch=x86_64",
            "-s",
            "build_type=RelWithDebInfo",
            "recipes/conanfile.py"
        ]
    );
}

#[test]
fn later_setter_wins() {
    let command = InstallCommandBuilder::new()
        .with_profile("first")
        .with_remote("one")
        .with_profile("second")
        .build_policy(BuildPolicy::Never)
        .build_policy(BuildPolicy::Always)
        .build();
    assert_eq!(
        command.args(&host(None, Some("/work"))),
        ["install", "-g", "json", "-pr", "second", "-r", "one", "-b"]
    );
}

#[test]
fn setters_commute() {
    let env = host(None, Some("/work"));
    let one = InstallCommandBuilder::new()
        .with_profile("p")
        .with_remote("r")
        .update_check()
        .recipe_path("conanfile.txt")
        .build();
    let other = InstallCommandBuilder::new()
        .recipe_path("conanfile.txt")
        .update_check()
        .with_remote("r")
        .with_profile("p")
        .build();
    assert_eq!(one.args(&env), other.args(&env));
}

#[test]
fn working_directory_is_not_named_v1() {
    let command = InstallCommandBuilder::new()
        .with_conan_api(ConanApi::V1)
        .output_dir("/work")
        .build();
    let args = command.args(&host(None, Some("/work")));
    assert_eq!(args, ["install", "-g", "json"]);
    assert!(!args.iter().any(|arg| arg == "--output-folder"));
    assert!(!args.iter().any(|arg| arg == "--install-folder"));
}

#[test]
fn working_directory_is_not_named_v2() {
    let command = InstallCommandBuilder::new()
        .with_conan_api(ConanApi::V2)
        .output_dir("/work")
        .build();
    let args = command.args(&host(Some("/elsewhere"), Some("/work")));
    assert_eq!(args, ["install", "-g", "json"]);
}

#[test]
fn working_directory_written_otherwise_is_not_named() {
    let command = InstallCommandBuilder::new().output_dir("/work/build/").build();
    let args = command.args(&host(None, Some("/work//build")));
    assert_eq!(args, ["install", "-g", "json"]);
}

#[test]
fn other_directory_is_named_twice_for_v1() {
    let command = InstallCommandBuilder::new()
        .with_conan_api(ConanApi::V1)
        .output_dir("/out")
        .build();
    assert_eq!(
        command.args(&host(None, Some("/work"))),
        ["install", "-g", "json", "--output-folder", "/out", "--install-folder", "/out"]
    );
}

#[test]
fn other_directory_is_named_twice_by_default() {
    let command = InstallCommandBuilder::new().build();
    assert_eq!(
        command.args(&host(Some("/target/out"), Some("/work"))),
        [
            "install",
            "-g",
            "json",
            "--output-folder",
            "/target/out",
            "--install-folder",
            "/target/out"
        ]
    );
}

#[test]
fn other_directory_is_named_once_for_v2() {
    let command = InstallCommandBuilder::new()
        .with_conan_api(ConanApi::V2)
        .output_dir("/out")
        .build();
    assert_eq!(
        command.args(&host(None, Some("/work"))),
        ["install", "-g", "json", "--output-folder", "/out"]
    );
}

#[test]
fn directory_is_named_where_working_directory_is_unknown() {
    let command = InstallCommandBuilder::new()
        .with_conan_api(ConanApi::V2)
        .output_dir("/out")
        .build();
    assert_eq!(
        command.args(&host(None, None)),
        ["install", "-g", "json", "--output-folder", "/out"]
    );
}

#[test]
fn output_dir_of_the_command_comes_first() {
    let command = InstallCommandBuilder::new().output_dir("/explicit").build();
    assert_eq!(
        command.output_dir(&host(Some("/from-env"), Some("/work"))),
        Some(String::from("/explicit"))
    );
}

#[test]
fn output_dir_of_the_environment_comes_second() {
    let command = InstallCommandBuilder::new().build();
    assert_eq!(
        command.output_dir(&host(Some("/from-env"), Some("/work"))),
        Some(String::from("/from-env"))
    );
}

#[test]
fn working_directory_comes_third() {
    let command = InstallCommandBuilder::new().build();
    assert_eq!(command.output_dir(&host(None, Some("/work"))), Some(String::from("/work")));
}

#[test]
fn no_output_dir_without_any_source() {
    let command = InstallCommandBuilder::new().build();
    assert_eq!(command.output_dir(&host(None, None)), None);
    assert_eq!(command.output_file(&host(None, None)), None);
}

#[test]
fn output_file_is_in_the_output_dir() {
    let command = InstallCommandBuilder::new().output_dir("/out").build();
    let file = command.output_file(&host(None, Some("/work"))).unwrap();
    assert_eq!(std::path::Path::new(&file), std::path::Path::new("/out").join("conanbuildinfo.json"));
    assert!(file.ends_with("conanbuildinfo.json"));
    assert_ne!(file, "/out");
    assert_ne!(file, "conanbuildinfo.json");
}

#[test]
fn generate_starts_by_running_conan() {
    let command = InstallCommandBuilder::new().with_profile("default").build();
    let env = host(None, Some("/work"));
    match command.generate(&env, GenerateEvent::Started) {
        GenerateAction::Run { program, args } => {
            assert_eq!(program, "/usr/bin/conan");
            assert_eq!(args, ["install", "-g", "json", "-pr", "default"]);
        }
        other => panic!("unexpected action: {:?}", other),
    }
}

#[test]
fn generate_ends_without_an_executable() {
    let command = InstallCommandBuilder::new().build();
    let env = Environment {
        conan: None,
        conan_on_path: None,
        out_dir: None,
        current_dir: Some(String::from("/work")),
    };
    assert!(matches!(
        command.generate(&env, GenerateEvent::Started),
        GenerateAction::Done { info: None }
    ));
}

#[test]
fn generate_ends_without_an_output_file() {
    let command = InstallCommandBuilder::new().build();
    assert!(matches!(
        command.generate(&host(None, None), GenerateEvent::Started),
        GenerateAction::Done { info: None }
    ));
}

#[test]
fn generate_reads_the_file_after_success() {
    let command = InstallCommandBuilder::new().output_dir("/out").build();
    let env = host(None, Some("/work"));
    match command.generate(&env, GenerateEvent::Exited { exit_code: Some(0) }) {
        GenerateAction::Read { path } => {
            assert_eq!(Some(path), command.output_file(&env));
        }
        other => panic!("unexpected action: {:?}", other),
    }
}

#[test]
fn generate_ends_after_failure() {
    let command = InstallCommandBuilder::new().output_dir("/out").build();
    let env = host(None, Some("/work"));
    assert!(matches!(
        command.generate(&env, GenerateEvent::Exited { exit_code: Some(1) }),
        GenerateAction::Done { info: None }
    ));
    assert!(matches!(
        command.generate(&env, GenerateEvent::Exited { exit_code: None }),
        GenerateAction::Done { info: None }
    ));
}

#[test]
fn generate_ends_with_what_the_file_holds() {
    let command = InstallCommandBuilder::new().build();
    let env = host(None, Some("/work"));
    let text = "{\"dependencies\": [{\"name\": \"zlib\", \"version\": \"1.2.11\"}]}";
    match command.generate(&env, GenerateEvent::FileRead { text: Some(text) }) {
        GenerateAction::Done { info: Some(info) } => {
            assert_eq!(info.dependencies().len(), 1);
            assert_eq!(info.dependencies()[0].name, "zlib");
        }
        other => panic!("unexpected action: {:?}", other),
    }
    assert!(matches!(
        command.generate(&env, GenerateEvent::FileRead { text: Some("not json") }),
        GenerateAction::Done { info: None }
    ));
    assert!(matches!(
        command.generate(&env, GenerateEvent::FileRead { text: None }),
        GenerateAction::Done { info: None }
    ));
}
