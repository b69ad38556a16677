use conan::version::ConanVersion;
use conan::{find_program, find_version, Environment};

fn host(conan: Option<&str>, conan_on_path: Option<&str>) -> Environment {
    Environment {
        conan: conan.map(String::from),
        conan_on_path: conan_on_path.map(String::from),
        out_dir: None,
        current_dir: None,
    }
}

#[test]
fn test_find_program() {
    if let Some(path) = find_program(&host(None, Some("/usr/bin/conan"))) {
        println!("Conan path: {}", path);
    }
}

#[test]
fn test_find_version() {
    if let Some(version) =
        find_version(&host(None, Some("/usr/bin/conan")), Some("Conan version 1.14.3\n"))
    {
        println!("Conan version: {}", version);
    }
}

#[test]
fn variable_overrides_the_search() {
    assert_eq!(
        find_program(&host(Some("/opt/conan/bin/conan"), Some("/usr/bin/conan"))),
        Some(String::from("/opt/conan/bin/conan"))
    );
}

#[test]
fn search_is_used_without_the_variable() {
    assert_eq!(
        find_program(&host(None, Some("/usr/bin/conan"))),
        Some(String::from("/usr/bin/conan"))
    );
}

#[test]
fn no_program_without_variable_and_search() {
    assert_eq!(find_program(&host(None, None)), None);
}

#[test]
fn version_is_found_as_text() {
    assert_eq!(
        find_version(&host(None, Some("/usr/bin/conan")), Some("Conan version 1.14.3\n")),
        Some(String::from("1.14.3"))
    );
    assert_eq!(
        find_version(&host(Some("conan"), None), Some("Conan version 2.0.17")),
        Some(String::from("2.0.17"))
    );
    assert_eq!(
        find_version(&host(Some("conan"), None), Some("Conan version 255.100.0")),
        Some(String::from("255.100.0"))
    );
}

#[test]
fn no_version_without_a_program() {
    assert_eq!(find_version(&host(None, None), Some("Conan version 1.14.3")), None);
    assert_eq!(ConanVersion::detect(&host(None, None), Some("Conan version 1.14.3")), None);
}

#[test]
fn no_version_without_output() {
    assert_eq!(find_version(&host(Some("conan"), None), None), None);
    assert_eq!(ConanVersion::detect(&host(Some("conan"), None), None), None);
}

#[test]
fn no_version_in_other_output() {
    assert_eq!(find_version(&host(Some("conan"), None), Some("command not found")), None);
}

#[test]
fn detect_reads_the_output() {
    assert_eq!(
        ConanVersion::detect(&host(Some("conan"), None), Some("Conan version 1.14.3")),
        Some(ConanVersion { major: 1, minor: 14, patch: 3 })
    );
}
