use conan::version::{ConanApi, ConanVersion};

fn version(major: u8, minor: u8, patch: u8) -> ConanVersion {
    ConanVersion { major, minor, patch }
}

#[test]
fn parses_version_one() {
    let parsed = ConanVersion::query_from("version 1.14.3");
    assert_eq!(parsed, Some(version(1, 14, 3)));
    assert_eq!(parsed.unwrap().api(), Some(ConanApi::V1));
}

#[test]
fn parses_version_two() {
    let parsed = ConanVersion::query_from("version 2.0.1");
    assert_eq!(parsed, Some(version(2, 0, 1)));
    assert_eq!(parsed.unwrap().api(), Some(ConanApi::V2));
}

#[test]
fn major_three_has_no_api() {
    assert_eq!(version(3, 0, 0).api(), None);
    assert_eq!(version(0, 9, 9).api(), None);
    assert_eq!(version(255, 1, 1).api(), None);
}

#[test]
fn api_depends_on_major_alone() {
    assert_eq!(version(1, 0, 0).api(), Some(ConanApi::V1));
    assert_eq!(version(1, 255, 255).api(), Some(ConanApi::V1));
    assert_eq!(version(2, 0, 0).api(), Some(ConanApi::V2));
    assert_eq!(version(2, 255, 255).api(), Some(ConanApi::V2));
}

#[test]
fn default_api_is_the_first() {
    assert_eq!(ConanApi::default(), ConanApi::V1);
}

#[test]
fn parses_what_conan_prints() {
    assert_eq!(ConanVersion::query_from("Conan version 1.14.3\n"), Some(version(1, 14, 3)));
    assert_eq!(ConanVersion::query_from("  Conan version 1.14.3 \r\n\t"), Some(version(1, 14, 3)));
    assert_eq!(
        ConanVersion::query_from("warning: old\nConan version 2.3.4"),
        Some(version(2, 3, 4))
    );
}

#[test]
fn parses_the_largest_components() {
    assert_eq!(ConanVersion::query_from("version 255.255.255"), Some(version(255, 255, 255)));
    assert_eq!(ConanVersion::query_from("version 0.0.0"), Some(version(0, 0, 0)));
}

#[test]
fn parses_leading_zeros() {
    assert_eq!(ConanVersion::query_from("version 01.002.0003"), Some(version(1, 2, 3)));
    assert_eq!(
        ConanVersion::query_from("version 000000000000000000001.2.3"),
        Some(version(1, 2, 3))
    );
}

#[test]
fn rejects_components_above_eight_bits() {
    assert_eq!(ConanVersion::query_from("version 256.0.0"), None);
    assert_eq!(ConanVersion::query_from("version 1.256.0"), None);
    assert_eq!(ConanVersion::query_from("version 1.0.256"), None);
    assert_eq!(ConanVersion::query_from("version 1.0.99999999999999999999999999"), None);
}

#[test]
fn rejects_what_does_not_end_in_a_version() {
    assert_eq!(ConanVersion::query_from(""), None);
    assert_eq!(ConanVersion::query_from("version"), None);
    assert_eq!(ConanVersion::query_from("version 1.2"), None);
    assert_eq!(ConanVersion::query_from("version 1.2."), None);
    assert_eq!(ConanVersion::query_from("version .2.3"), None);
    assert_eq!(ConanVersion::query_from("version 1..3"), None);
    assert_eq!(ConanVersion::query_from("version 1.2.3 (beta)"), None);
    assert_eq!(ConanVersion::query_from("version 1.2.3-rc1"), None);
    assert_eq!(ConanVersion::query_from("1.2.3"), None);
    assert_eq!(ConanVersion::query_from("Version 1.2.3"), None);
    assert_eq!(ConanVersion::query_from("version  1.2.3"), None);
    assert_eq!(ConanVersion::query_from("version\t1.2.3"), None);
    assert_eq!(ConanVersion::query_from("version 1.2.3\nmore"), None);
    assert_eq!(ConanVersion::query_from("version -1.2.3"), None);
    assert_eq!(ConanVersion::query_from("version 1.2.\u{0663}"), None);
}

#[test]
fn takes_the_last_three_numbers() {
    assert_eq!(ConanVersion::query_from("version 1.2.3.4"), None);
    assert_eq!(ConanVersion::query_from("version 9.9.9 version 1.2.3"), Some(version(1, 2, 3)));
}

#[test]
fn version_as_text() {
    assert_eq!(version(1, 14, 3).to_text(), "1.14.3");
    assert_eq!(version(0, 0, 0).to_text(), "0.0.0");
    assert_eq!(version(255, 100, 9).to_text(), "255.100.9");
    assert_eq!(version(10, 99, 101).to_text(), "10.99.101");
}

#[test]
fn text_of_a_version_names_it() {
    for major in [0u8, 1, 9, 10, 99, 100, 199, 200, 255] {
        for minor in [0u8, 7, 42, 255] {
            let v = version(major, minor, major ^ minor);
            let line = format!("Conan version {}", v.to_text());
            assert_eq!(ConanVersion::query_from(&line), Some(v));
        }
    }
}

#[test]
fn versions_are_ordered_by_components() {
    assert!(version(1, 9, 9) < version(1, 10, 0));
    assert!(version(1, 10, 0) < version(2, 0, 0));
    assert!(version(1, 9, 9) < version(2, 0, 0));
    assert!(version(1, 2, 3) < version(1, 2, 4));
    assert!(version(1, 2, 3) <= version(1, 2, 3));
    assert!(version(1, 2, 3) >= version(1, 2, 3));
    assert!(version(2, 0, 0) > version(1, 255, 255));
    assert!(!(version(2, 0, 0) < version(1, 255, 255)));
    assert_eq!(version(1, 2, 3), version(1, 2, 3));
    assert_ne!(version(1, 2, 3), version(1, 3, 2));
}

#[test]
fn order_agrees_with_the_order_of_triples() {
    let samples = [0u8, 1, 2, 9, 10, 255];
    for a in samples {
        for b in samples {
            for c in samples {
                for d in samples {
                    let left = version(a, b, c);
                    let right = version(c, d, a);
                    assert_eq!(left.cmp(&right), (a, b, c).cmp(&(c, d, a)));
                    assert_eq!(left.partial_cmp(&right), Some((a, b, c).cmp(&(c, d, a))));
                    assert_eq!(left < right, (a, b, c) < (c, d, a));
                }
            }
        }
    }
}

#[test]
fn minimum_version_check() {
    let minimum = version(1, 14, 0);
    assert!(version(1, 14, 3) >= minimum);
    assert!(version(2, 0, 0) >= minimum);
    assert!(version(1, 13, 255) < minimum);
    assert_eq!(std::cmp::max(version(1, 9, 9), version(1, 10, 0)), version(1, 10, 0));
}
