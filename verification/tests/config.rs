use nvimx::config::{config_file_action, ConfigFileAction};
use nvimx::config::{
    apply_legacy_registry_url, default_config_file, default_false, default_log_level,
    default_output, default_registry_urls, default_true, normalize_registry_urls, setup_profile_name,
    Config,
};

const DEFAULT_URL: &str = "https://raw.githubusercontent.com/zx0r/nvimx-registry/main/index.json";

#[test]
fn defaults() {
    let c = Config::default();
    assert_eq!(c.default_profile, None);
    assert_eq!(c.registry_urls, vec![DEFAULT_URL.to_string()]);
    assert!(c.use_fzf);
    assert_eq!(c.log_level, "info");
    assert_eq!(c.output, "text");
    assert!(!c.auto_update);
    assert!(c.auto_install_missing);
    assert!(!c.strict_mode);
    assert!(c.fallback_to_plain_nvim);
    assert_eq!(c.profiles_dir, None);
    assert_eq!(default_registry_urls(), vec![DEFAULT_URL.to_string()]);
    assert!(default_true());
    assert!(!default_false());
    assert_eq!(default_log_level(), "info");
    assert_eq!(default_output(), "text");
}

fn empty_urls() -> Config {
    let mut c = Config::default();
    c.registry_urls = vec![];
    c
}

#[test]
fn the_legacy_registry_url_fills_an_empty_list() {
    let mut c = empty_urls();
    normalize_registry_urls(&mut c, "registry_urls = []\nregistry_url = \"https://mine/index.json\"\n");
    assert_eq!(c.registry_urls, vec!["https://mine/index.json".to_string()]);

    // A file with only `registry_url` and no `registry_urls` key.
    let mut c = empty_urls();
    normalize_registry_urls(&mut c, "default_profile = \"lazyvim\"\nregistry_url = \"U\"\n");
    assert_eq!(c.registry_urls, vec!["U".to_string()]);

    let mut c = empty_urls();
    normalize_registry_urls(&mut c, "registry_urls = []\n");
    assert_eq!(c.registry_urls, vec![DEFAULT_URL.to_string()]);

    let mut c = empty_urls();
    normalize_registry_urls(&mut c, "this is = = not toml");
    assert_eq!(c.registry_urls, vec![DEFAULT_URL.to_string()]);

    let mut c = empty_urls();
    normalize_registry_urls(&mut c, "registry_url = 5\n");
    assert_eq!(c.registry_urls, vec![DEFAULT_URL.to_string()]);

    let mut c = Config::default();
    c.registry_urls = vec!["a".to_string(), "b".to_string()];
    normalize_registry_urls(&mut c, "registry_url = \"ignored\"\n");
    assert_eq!(c.registry_urls, vec!["a".to_string(), "b".to_string()]);
}

#[test]
fn the_repair_step_alone() {
    let mut c = empty_urls();
    apply_legacy_registry_url(&mut c, Some("x".to_string()));
    assert_eq!(c.registry_urls, vec!["x".to_string()]);
    let mut c = empty_urls();
    apply_legacy_registry_url(&mut c, None);
    assert_eq!(c.registry_urls, vec![DEFAULT_URL.to_string()]);
}

#[test]
fn the_default_file_holds_every_setting() {
    let f = default_config_file();
    assert!(f.starts_with("# default profile if none specified\n"));
    assert!(f.contains("default_profile = \"lazyvim\"\n"));
    assert!(f.contains("profiles_dir = \"~/.config/nvim\"\n"));
    assert!(f.ends_with("strict_mode = false\n"));
    assert!(f.contains("# \u{2192} Used when no profile argument is provided (skips fzf)"));
}

#[test]
fn setup_offers_the_default_profile() {
    let mut c = Config::default();
    assert_eq!(setup_profile_name(&c), "lazyvim");
    c.default_profile = Some("astro".to_string());
    assert_eq!(setup_profile_name(&c), "astro");
}

#[test]
fn setup_creates_keeps_or_overwrites_the_config_file() {
    assert_eq!(config_file_action(false, false), ConfigFileAction::Create);
    assert_eq!(config_file_action(false, true), ConfigFileAction::Create);
    assert_eq!(config_file_action(true, true), ConfigFileAction::BackUpAndOverwrite);
    assert_eq!(config_file_action(true, false), ConfigFileAction::Keep);
}
