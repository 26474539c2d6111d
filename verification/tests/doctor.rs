use nvimx::registry::new_cache_meta;
use nvimx::doctor::{cache_status, dir_status, worse};
use nvimx::doctor::{
    first_line, fzf_status, registry_status, tool_status, initial_report, overall, profiles_status, status_name, version_from_output,
    Status,
};

fn out(x: &str) -> Option<String> {
    Some(x.to_string())
}

#[test]
fn versions_from_tool_output() {
    assert_eq!(version_from_output("nvim", out("NVIM v0.10.1\nBuild type: Release\n")), "v0.10.1");
    assert_eq!(version_from_output("nvim", out("NVIM 0.9.5\n")), "v0.9.5");
    assert_eq!(version_from_output("git", out("git version 2.43.0\n")), "2.43.0");
    assert_eq!(version_from_output("fzf", None), "missing");
    assert_eq!(version_from_output("x", out("hello world\n")), "hello world");
    assert_eq!(version_from_output("git", out("abc\r\n2.0\n")), "abc");
    assert_eq!(version_from_output("git", out("")), "");
    assert_eq!(version_from_output("nvim", out("")), "v");
    assert_eq!(version_from_output("tool", out("  tool\u{3000}v\u{0663}  x\n")), "v\u{0663}");
}

#[test]
fn first_lines() {
    assert_eq!(first_line("a\nb"), "a");
    assert_eq!(first_line("a\r\nb"), "a");
    assert_eq!(first_line("a\r"), "a\r");
    assert_eq!(first_line("\nb"), "");
    assert_eq!(first_line("plain"), "plain");
}

#[test]
fn the_overall_status() {
    let mut r = initial_report();
    assert_eq!(r.nvim, Status::Error);
    assert_eq!(r.fzf, Status::Warn);
    assert_eq!(r.config, Status::Good);
    assert_eq!(overall(&r), Status::Error);
    r.nvim = Status::Good;
    r.git = Status::Good;
    r.registry = Status::Good;
    assert_eq!(overall(&r), Status::Error);
    r.paths = Status::Good;
    assert_eq!(overall(&r), Status::Warn);
    r.fzf = Status::Good;
    r.profiles = Status::Good;
    assert_eq!(overall(&r), Status::Good);
    r.cache = Status::Warn;
    assert_eq!(overall(&r), Status::Good);
    r.paths = Status::Warn;
    assert_eq!(overall(&r), Status::Warn);
    r.paths = Status::Good;
    r.registry = Status::Error;
    assert_eq!(overall(&r), Status::Error);
    assert_eq!(profiles_status(0), Status::Warn);
    assert_eq!(profiles_status(3), Status::Good);
    assert_eq!(status_name(Status::Good), "ok");
    assert_eq!(status_name(Status::Warn), "warn");
    assert_eq!(status_name(Status::Error), "error");
}

#[test]
fn individual_checks() {
    assert_eq!(tool_status("missing"), Status::Error);
    assert_eq!(tool_status("v0.10.1"), Status::Good);
    assert_eq!(tool_status(""), Status::Good);
    assert_eq!(fzf_status(true), Status::Good);
    assert_eq!(fzf_status(false), Status::Warn);
    assert_eq!(registry_status(false, true), Status::Warn);
    assert_eq!(registry_status(true, true), Status::Good);
    assert_eq!(registry_status(true, false), Status::Error);
}

#[test]
fn directory_and_cache_checks() {
    assert_eq!(dir_status(true, true), Status::Good);
    assert_eq!(dir_status(false, false), Status::Warn);
    assert_eq!(dir_status(true, false), Status::Error);
    assert_eq!(worse(Status::Good, Status::Warn), Status::Warn);
    assert_eq!(worse(Status::Error, Status::Warn), Status::Error);
    assert_eq!(worse(Status::Good, Status::Good), Status::Good);
    assert_eq!(cache_status(None, 10), Status::Warn);
    assert_eq!(cache_status(Some(new_cache_meta(100, "u")), 200), Status::Good);
    assert_eq!(cache_status(Some(new_cache_meta(100, "u")), 3_700), Status::Warn);
}
