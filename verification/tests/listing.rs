use conan::{get_profile_list, get_remote_list, Remote};

#[test]
fn test_conan_profile_list() {
    let conan_profile_list = get_profile_list("default\n");
    for conan_profile in conan_profile_list {
        println!("{}", conan_profile);
    }
}

#[test]
fn test_conan_remote_list() {
    let conan_remote_list = get_remote_list(
        "conan-center: https://conan.bintray.com [Verify SSL: True]\n\
         artifactory: https://devolutions.jfrog.io/devolutions/api/conan/conan-local [Verify SSL: True]\n",
    );
    for conan_remote in conan_remote_list {
        println!("{}", conan_remote.to_string());
    }
}

#[test]
fn profiles_are_the_lines() {
    assert_eq!(get_profile_list("default\n"), ["default"]);
    assert_eq!(get_profile_list("default\nlinux-x86_64\nwindows"), ["default", "linux-x86_64", "windows"]);
    assert_eq!(get_profile_list("default\r\nlinux\r\n"), ["default", "linux"]);
    assert_eq!(get_profile_list(""), Vec::<String>::new());
}

#[test]
fn lines_are_split_as_std_splits_them() {
    let texts = [
        "",
        "\n",
        "\n\n",
        "a",
        "a\n",
        "a\nb",
        "a\n\nb\n",
        "a\r\nb\r\n",
        "a\rb\n",
        "a\r",
        "a\r\n\r",
        "\r\n",
        "\r",
        "a\r\r\n",
        " a \n b ",
        "one\ntwo\r\nthree\n\nfive\r",
    ];
    for text in texts {
        let expected: Vec<String> = text.lines().map(String::from).collect();
        assert_eq!(get_profile_list(text), expected, "lines of {:?}", text);
    }
}

#[test]
fn remotes_are_read_line_by_line() {
    let remotes = get_remote_list(
        "conan-center: https://conan.bintray.com [Verify SSL: True]\n\
         artifactory: https://devolutions.jfrog.io/devolutions/api/conan/conan-local [Verify SSL: True]\n",
    );
    assert_eq!(remotes.len(), 2);
    assert_eq!(remotes[0].name, "conan-center");
    assert_eq!(remotes[0].url, "https://conan.bintray.com");
    assert_eq!(remotes[1].name, "artifactory");
    assert_eq!(
        remotes[1].url,
        "https://devolutions.jfrog.io/devolutions/api/conan/conan-local"
    );
}

#[test]
fn lines_without_a_remote_are_passed_over() {
    let remotes = get_remote_list("\nno remote here\nlocal: http://localhost:9300 [Verify SSL: False]\n\n");
    assert_eq!(remotes.len(), 1);
    assert_eq!(remotes[0].name, "local");
    assert_eq!(remotes[0].url, "http://localhost:9300");
    assert!(get_remote_list("").is_empty());
}

#[test]
fn remote_needs_something_after_the_url() {
    assert!(Remote::parse("conan-center: https://conan.bintray.com").is_none());
    assert!(Remote::parse("conan-center: https://conan.bintray.com   ").is_none());
    assert!(Remote::parse("conan-center: https://conan.bintray.com x").is_some());
}

#[test]
fn remote_needs_a_name_before_the_colon() {
    assert!(Remote::parse(": https://conan.bintray.com [Verify SSL: True]").is_none());
    assert!(Remote::parse("name https://conan.bintray.com [Verify]").is_none());
    assert!(Remote::parse("name : url rest").is_none());
    assert!(Remote::parse("").is_none());
    assert!(Remote::parse("   ").is_none());
}

#[test]
fn remote_is_the_first_word_with_a_colon() {
    let remote = Remote::parse("  see remote: http://a.b/c  [Verify SSL: True] ").unwrap();
    assert_eq!(remote.name, "remote");
    assert_eq!(remote.url, "http://a.b/c");
    let remote = Remote::parse("a:b: u v").unwrap();
    assert_eq!(remote.name, "a:b");
    assert_eq!(remote.url, "u");
    let remote = Remote::parse(": x: y z").unwrap();
    assert_eq!(remote.name, "x");
    assert_eq!(remote.url, "y");
    let remote = Remote::parse("first: second: third").unwrap();
    assert_eq!(remote.name, "first");
    assert_eq!(remote.url, "second:");
    assert!(Remote::parse("a b: c").is_none());
}

#[test]
fn remote_words_are_split_at_any_white_space() {
    let remote = Remote::parse("name:\t\u{a0}url\u{2003}rest").unwrap();
    assert_eq!(remote.name, "name");
    assert_eq!(remote.url, "url");
}

#[test]
fn remote_as_text() {
    let remote = Remote {
        name: String::from("conan-center"),
        url: String::from("https://conan.bintray.com"),
    };
    assert_eq!(remote.to_string(), "conan-center: https://conan.bintray.com");
    let copy = remote.clone();
    assert_eq!(copy.name, remote.name);
    assert_eq!(copy.url, remote.url);
}
