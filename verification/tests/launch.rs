use nvimx::config::Config;
use nvimx::profile::{
    appname_env, count_profiles, launch_picked, launch_without_candidates, list_lines, listed_profiles,
    plan_launch, resolve_target, select_entries, AppNameEnv, DirEntryInfo, EntryFilter,
    LaunchError, LaunchPlan, NvimLaunch, ProfileFallback,
};

fn s(x: &str) -> String {
    x.to_string()
}

fn v(xs: &[&str]) -> Vec<String> {
    xs.iter().map(|x| x.to_string()).collect()
}

fn config(default_profile: Option<&str>) -> Config {
    let mut c = Config::default();
    c.default_profile = default_profile.map(s);
    c
}

#[test]
fn an_existing_profile_is_taken_from_the_first_argument() {
    let c = config(Some("lazyvim"));
    let r = resolve_target(Some(s("python")), v(&["main.py", "-R"]), &c, true);
    assert_eq!(r.profile, Some(s("python")));
    assert!(r.is_explicit);
    assert_eq!(r.args, v(&["main.py", "-R"]));
}

#[test]
fn a_file_argument_goes_to_neovim_with_the_default_profile() {
    let c = config(Some("lazyvim"));
    let r = resolve_target(Some(s("main.py")), v(&["x"]), &c, true);
    assert_eq!(r.profile, Some(s("lazyvim")));
    assert!(!r.is_explicit);
    assert_eq!(r.args, v(&["main.py", "x"]));
    // A valid name without a directory is a file too.
    let r = resolve_target(Some(s("notes")), vec![], &c, false);
    assert_eq!(r.profile, Some(s("lazyvim")));
    assert_eq!(r.args, v(&["notes"]));
    // No argument at all.
    let r = resolve_target(None, v(&["--", "-c"]), &config(None), false);
    assert_eq!(r.profile, None);
    assert_eq!(r.args, v(&["--", "-c"]));
}

fn exec_of(plan: LaunchPlan) -> NvimLaunch {
    match plan {
        LaunchPlan::Exec(l) => l,
        _ => panic!("expected a launch"),
    }
}

#[test]
fn a_present_profile_launches_with_its_appname() {
    let c = config(None);
    let r = resolve_target(Some(s("python")), v(&["a.py"]), &c, true);
    let l = exec_of(plan_launch(r, true, &c));
    assert_eq!(l.profile, Some(s("python")));
    assert_eq!(l.fallback, ProfileFallback::Preserve);
    assert_eq!(l.args, v(&["a.py"]));
    match appname_env(&l) {
        Ok(AppNameEnv::Assign(value)) => assert_eq!(value, "nvim/python"),
        _ => panic!("expected NVIM_APPNAME to be set"),
    }
}

#[test]
fn strict_mode_reports_a_missing_profile() {
    let mut c = config(Some("gone"));
    c.strict_mode = true;
    let r = resolve_target(None, vec![], &c, false);
    match plan_launch(r, false, &c) {
        LaunchPlan::Fail(e) => {
            assert!(matches!(e, LaunchError::StrictModeNotFound(_)));
            assert_eq!(e.message(), "profile 'gone' not found (strict mode enabled)");
        }
        _ => panic!("strict mode must fail"),
    }
}

#[test]
fn a_missing_named_profile_falls_back_or_fails() {
    let c = config(None);
    let r = resolve_target(Some(s("python")), v(&["f"]), &c, true);
    match plan_launch(r, false, &c) {
        LaunchPlan::WarnThenExec(w, l) => {
            assert_eq!(w, "profile 'python' not found \u{2014} falling back to vanilla nvim");
            assert_eq!(l.profile, None);
            assert_eq!(l.fallback, ProfileFallback::ClearOnNone);
            assert_eq!(l.args, v(&["f"]));
        }
        _ => panic!("expected the fallback"),
    }
    let mut c = config(None);
    c.fallback_to_plain_nvim = false;
    let r = resolve_target(Some(s("python")), vec![], &c, true);
    match plan_launch(r, false, &c) {
        LaunchPlan::Fail(e) => assert_eq!(e.message(), "profile 'python' not found"),
        _ => panic!("expected a failure"),
    }
}

#[test]
fn a_missing_default_profile_uses_the_picker_or_plain_neovim() {
    let c = config(Some("lazyvim"));
    let r = resolve_target(None, v(&["x"]), &c, false);
    match plan_launch(r, false, &c) {
        LaunchPlan::Pick(args) => assert_eq!(args, v(&["x"])),
        _ => panic!("expected the picker"),
    }
    let mut c = config(Some("lazyvim"));
    c.use_fzf = false;
    let r = resolve_target(None, vec![], &c, false);
    match plan_launch(r, false, &c) {
        LaunchPlan::WarnThenExec(w, l) => {
            assert_eq!(w, "default profile 'lazyvim' not found \u{2014} using vanilla nvim");
            assert_eq!(l.profile, None);
        }
        _ => panic!("expected the fallback"),
    }
    c.fallback_to_plain_nvim = false;
    let r = resolve_target(None, vec![], &c, false);
    assert!(matches!(plan_launch(r, false, &c), LaunchPlan::Fail(LaunchError::NotFound(_))));
}

#[test]
fn without_a_profile_the_picker_or_plain_neovim_runs() {
    let c = config(None);
    let r = resolve_target(None, v(&["a"]), &c, false);
    assert!(matches!(plan_launch(r, false, &c), LaunchPlan::Pick(_)));
    let mut c = config(None);
    c.use_fzf = false;
    let r = resolve_target(None, v(&["a"]), &c, false);
    let l = exec_of(plan_launch(r, false, &c));
    assert_eq!(l.profile, None);
    assert_eq!(l.fallback, ProfileFallback::ClearOnNone);
    assert!(matches!(appname_env(&l), Ok(AppNameEnv::Remove)));
}

#[test]
fn appname_refuses_invalid_names() {
    let l = NvimLaunch { profile: Some(s("../etc")), fallback: ProfileFallback::Preserve, args: vec![] };
    match appname_env(&l) {
        Err(e) => assert_eq!(e.message(), "refusing to launch with invalid profile name: '../etc'"),
        Ok(_) => panic!("must refuse"),
    }
    let l = NvimLaunch { profile: None, fallback: ProfileFallback::Preserve, args: vec![] };
    assert!(matches!(appname_env(&l), Ok(AppNameEnv::Inherit)));
}

fn entry(name: &str, is_dir: bool) -> DirEntryInfo {
    DirEntryInfo { name: s(name), is_dir }
}

#[test]
fn picker_and_listing_filter_entries() {
    let entries = vec![
        entry("zeta", true),
        entry(".git", true),
        entry("_tmp", true),
        entry("file.txt", false),
        entry("alpha", true),
    ];
    assert_eq!(select_entries(&entries, EntryFilter::Picker), v(&["zeta", "alpha"]));
    assert_eq!(select_entries(&entries, EntryFilter::Listing), v(&["zeta", "_tmp", "alpha"]));
    assert_eq!(listed_profiles(&entries), v(&["_tmp", "alpha", "zeta"]));
    assert_eq!(count_profiles(&entries), 3);
    assert_eq!(count_profiles(&vec![]), 0);
}

#[test]
fn listing_sorts_by_code_point() {
    let entries = vec![entry("b", true), entry("B", true), entry("a", true), entry("é", true), entry("ab", true)];
    assert_eq!(listed_profiles(&entries), v(&["B", "a", "ab", "b", "é"]));
}

#[test]
fn listing_marks_the_default_profile() {
    let entries = vec![entry("zeta", true), entry("alpha", true), entry(".x", true)];
    let lines = list_lines(&entries, &Some(s("zeta")));
    let got: Vec<(String, bool)> = lines.into_iter().map(|l| (l.name, l.is_default)).collect();
    assert_eq!(got, vec![(s("alpha"), false), (s("zeta"), true)]);
    let lines = list_lines(&entries, &None);
    assert!(lines.iter().all(|l| !l.is_default));
    let lines = list_lines(&entries, &Some(s("missing")));
    assert!(lines.iter().all(|l| !l.is_default));
}

#[test]
fn the_picker_outcome_decides_the_launch() {
    let none = launch_without_candidates(&vec![], v(&["x"])).expect("plain neovim");
    assert_eq!(none.profile, None);
    assert_eq!(none.fallback, ProfileFallback::ClearOnNone);
    assert_eq!(none.args, v(&["x"]));
    assert!(launch_without_candidates(&v(&["a"]), vec![]).is_none());
    let picked = launch_picked(Some(s("rust")), v(&["y"])).expect("a launch");
    assert_eq!(picked.profile, Some(s("rust")));
    assert_eq!(picked.fallback, ProfileFallback::Preserve);
    assert!(launch_picked(None, vec![]).is_none());
}
