use nvimx::profile::{is_reserved_name, is_valid_profile_name};

#[test]
fn test_valid_profile_names() {
    assert!(is_valid_profile_name("python"));
    assert!(is_valid_profile_name("rust-dev"));
    assert!(is_valid_profile_name("my_profile_2"));
    assert!(is_valid_profile_name("a"));
}

#[test]
fn test_invalid_profile_names() {
    assert!(!is_valid_profile_name(""));
    assert!(!is_valid_profile_name("nvim/lazy")); // Protection against Path Traversal
    assert!(!is_valid_profile_name("profile name"));
    assert!(!is_valid_profile_name("profile.sh"));
    assert!(!is_valid_profile_name(&"a".repeat(65)));
}

#[test]
fn profile_name_length_limit_is_inclusive() {
    assert!(is_valid_profile_name(&"a".repeat(64)));
    assert!(is_valid_profile_name("ABC-xyz_09"));
}

#[test]
fn profile_names_reject_traversal_and_unicode() {
    assert!(!is_valid_profile_name(".."));
    assert!(!is_valid_profile_name("."));
    assert!(!is_valid_profile_name("é"));
    assert!(!is_valid_profile_name("a\u{0}"));
}

#[test]
fn reserved_names_are_the_commands() {
    for name in [
        "list", "install", "clean", "doctor", "setup", "sandbox", "registry", "update",
        "completions", "help", "repro", "debug",
    ] {
        assert!(is_reserved_name(name), "{name}");
    }
    assert!(!is_reserved_name("lazyvim"));
    assert!(!is_reserved_name("List"));
    assert!(!is_reserved_name(""));
}
