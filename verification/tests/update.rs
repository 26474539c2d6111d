use nvimx::update::{
    check_current_version, decide_update, is_brew_install, release_target, tag_version, Asset,
    Release, UpdateDecision, UpdateError,
};

fn release(tag: &str, assets: &[&str]) -> Release {
    Release {
        tag_name: tag.to_string(),
        assets: assets
            .iter()
            .map(|n| Asset { name: n.to_string(), browser_download_url: format!("https://dl/{n}") })
            .collect(),
    }
}

#[test]
fn homebrew_installs_are_recognised() {
    assert!(is_brew_install("/opt/homebrew/bin/nvimx"));
    assert!(is_brew_install("/usr/local/Cellar/nvimx/0.1.1/bin/nvimx"));
    assert!(!is_brew_install("/home/u/.cargo/bin/nvimx"));
}

#[test]
fn tags_and_targets() {
    assert_eq!(tag_version("v1.2.3"), "1.2.3");
    assert_eq!(tag_version("vv1.2.3"), "1.2.3");
    assert_eq!(tag_version("1.2.3"), "1.2.3");
    assert_eq!(release_target("macos", "aarch64"), Some("macos-arm64"));
    assert_eq!(release_target("macos", "x86_64"), Some("macos-x86_64"));
    assert_eq!(release_target("linux", "x86_64"), Some("linux-x86_64"));
    assert_eq!(release_target("linux", "aarch64"), None);
    assert_eq!(release_target("windows", "x86_64"), None);
}

#[test]
fn the_running_version_must_parse() {
    assert!(check_current_version("0.1.1").is_ok());
    match check_current_version("0.1") {
        Err(e) => assert_eq!(e.message(), semver::Version::parse("0.1").unwrap_err().to_string()),
        Ok(_) => panic!("0.1 is not semver"),
    }
    match decide_update("x", &release("v9.9.9", &[]), "linux", "x86_64") {
        Err(e @ UpdateError::InvalidVersion(_)) => {
            assert_eq!(e.message(), "unexpected character 'x' while parsing major version number")
        }
        _ => panic!("x is not semver"),
    }
}

#[test]
fn decisions() {
    let assets = ["nvimx-macos-arm64", "nvimx-linux-x86_64"];
    assert!(matches!(decide_update("0.1.1", &release("v0.1.1", &assets), "linux", "x86_64"), Ok(UpdateDecision::UpToDate)));
    assert!(matches!(decide_update("0.1.1", &release("v0.1.0", &assets), "linux", "x86_64"), Ok(UpdateDecision::UpToDate)));
    assert!(matches!(decide_update("0.1.1", &release("garbage", &assets), "linux", "x86_64"), Ok(UpdateDecision::UpToDate)));
    assert!(matches!(decide_update("0.2.0", &release("v0.2.0-rc.1", &assets), "linux", "x86_64"), Ok(UpdateDecision::UpToDate)));
    match decide_update("0.1.1", &release("v0.2.0", &assets), "linux", "x86_64") {
        Ok(UpdateDecision::Download(i, v)) => {
            assert_eq!(i, 1);
            assert_eq!(v, "0.2.0");
        }
        _ => panic!("expected a download"),
    }
    match decide_update("0.1.1", &release("v0.2.0", &assets[..1]), "linux", "x86_64") {
        Err(e) => assert_eq!(e.message(), "could not find binary 'nvimx-linux-x86_64' in the latest release"),
        _ => panic!("expected a missing asset"),
    }
    match decide_update("0.1.1", &release("v0.2.0", &assets), "freebsd", "x86_64") {
        Err(e) => assert_eq!(e.message(), "unsupported platform for auto-update: freebsd-x86_64"),
        _ => panic!("expected an unsupported platform"),
    }
}
