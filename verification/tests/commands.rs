use nvimx::cli::{clean_bash_completion, is_version_request, unknown_option};
use nvimx::prompt::{clean_confirmed, install_confirmed};
use nvimx::sandbox::{sandbox_layout, sandbox_title_command};

fn v(xs: &[&str]) -> Vec<String> {
    xs.iter().map(|x| x.to_string()).collect()
}

#[test]
fn clean_asks_for_an_explicit_yes() {
    assert!(clean_confirmed("y\n"));
    assert!(clean_confirmed("  Y \n"));
    assert!(clean_confirmed("\u{3000}y"));
    assert!(!clean_confirmed("yes\n"));
    assert!(!clean_confirmed("\n"));
    assert!(!clean_confirmed("n"));
}

#[test]
fn install_defaults_to_yes() {
    assert!(install_confirmed("\n"));
    assert!(install_confirmed(""));
    assert!(install_confirmed("Y\n"));
    assert!(install_confirmed(" y"));
    assert!(!install_confirmed("n\n"));
    assert!(!install_confirmed("yes"));
}

#[test]
fn version_flags_and_unknown_options() {
    assert!(is_version_request(&v(&["nvimx", "-v"])));
    assert!(is_version_request(&v(&["nvimx", "-V", "x"])));
    assert!(is_version_request(&v(&["nvimx", "--version"])));
    assert!(!is_version_request(&v(&["nvimx"])));
    assert!(!is_version_request(&v(&["nvimx", "list", "-v"])));
    assert_eq!(unknown_option(&v(&["nvimx", "foo", "--bad", "-x"])), "--bad");
    assert_eq!(unknown_option(&v(&["nvimx", "foo"])), "unknown");
    assert_eq!(unknown_option(&v(&[])), "unknown");
}

#[test]
fn bash_completion_placeholders_are_removed() {
    assert_eq!(clean_bash_completion("a [PROFILE] b [ARGS]... c"), "a  b  c");
    assert_eq!(clean_bash_completion("none"), "none");
}

#[test]
fn sandbox_directories_and_title() {
    let l = sandbox_layout("/h/.cache", "lazyvim");
    assert_eq!(l.root, "/h/.cache/nvimx/sandbox/lazyvim");
    assert_eq!(l.config_home, "/h/.cache/nvimx/sandbox/lazyvim/config");
    assert_eq!(l.data_home, "/h/.cache/nvimx/sandbox/lazyvim/data");
    assert_eq!(l.state_home, "/h/.cache/nvimx/sandbox/lazyvim/state");
    assert_eq!(l.cache_home, "/h/.cache/nvimx/sandbox/lazyvim/cache");
    assert_eq!(l.nvim_config_dir, "/h/.cache/nvimx/sandbox/lazyvim/config/nvim");
    assert_eq!(sandbox_title_command("my profile"), "set title titlestring=nvimx\\ sandbox:\\ my\\ profile");
}

#[test]
fn sandbox_homes_lie_inside_the_sandbox() {
    let l = sandbox_layout("/h/.cache/", "p");
    for home in [&l.config_home, &l.data_home, &l.state_home, &l.cache_home] {
        assert_eq!(nvimx::paths::parent_path(home), Some(l.root.clone()));
    }
    assert_eq!(nvimx::paths::parent_path(&l.root), Some("/h/.cache/nvimx/sandbox".to_string()));
    // An absolute "profile" replaces the sandbox directory entirely.
    assert_eq!(sandbox_layout("/h/.cache", "/tmp/x").root, "/tmp/x");
}

#[test]
fn whitespace_matches_the_standard_library() {
    for n in 0u32..0x11_0000 {
        if let Some(c) = char::from_u32(n) {
            let one = c.to_string();
            assert_eq!(nvimx::text::trim_str(&one), one.trim(), "U+{n:04X}");
        }
    }
}
