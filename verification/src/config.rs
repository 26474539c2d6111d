//! User configuration: its fields, the defaults each field takes, and the
//! filling of the registry list from the single `registry_url` key.
use vstd::prelude::*;

verus! {

/// The settings read from `config.toml`.
pub struct Config {
    pub default_profile: Option<String>,
    pub registry_urls: Vec<String>,
    pub use_fzf: bool,
    pub log_level: String,
    pub output: String,
    pub auto_update: bool,
    pub auto_install_missing: bool,
    pub strict_mode: bool,
    pub fallback_to_plain_nvim: bool,
    pub profiles_dir: Option<String>,
}

/// The registry that is used when the configuration names none.
pub open spec fn default_registry_url_text() -> Seq<char> {
    "https://raw.githubusercontent.com/zx0r/nvimx-registry/main/index.json"@
}

/// The registry list that holds exactly the default registry.
pub open spec fn is_default_registry_list(urls: Seq<String>) -> bool {
    urls.len() == 1 && urls[0]@ == default_registry_url_text()
}

/// Every field of `c` holds its default value.
pub open spec fn is_default_config(c: Config) -> bool {
    &&& c.default_profile is None
    &&& is_default_registry_list(c.registry_urls@)
    &&& c.use_fzf
    &&& c.log_level@ == "info"@
    &&& c.output@ == "text"@
    &&& !c.auto_update
    &&& c.auto_install_missing
    &&& !c.strict_mode
    &&& c.fallback_to_plain_nvim
    &&& c.profiles_dir is None
}

/// The default registry list: the one default registry.
pub fn default_registry_urls() -> (r: Vec<String>)
    ensures
        is_default_registry_list(r@),
{
    let mut v: Vec<String> = Vec::new();
    v.push("https://raw.githubusercontent.com/zx0r/nvimx-registry/main/index.json".to_owned());
    v
}

/// The default of the boolean settings that are on unless turned off.
pub fn default_true() -> (r: bool)
    ensures
        r,
{
    true
}

/// The default of the boolean settings that are off unless turned on.
pub fn default_false() -> (r: bool)
    ensures
        !r,
{
    false
}

/// The default log level, `info`.
pub fn default_log_level() -> (r: String)
    ensures
        r@ == "info"@,
{
    "info".to_owned()
}

/// The default output format, `text`.
pub fn default_output() -> (r: String)
    ensures
        r@ == "text"@,
{
    "text".to_owned()
}

impl Default for Config {
    fn default() -> (r: Self)
        ensures
            is_default_config(r),
    {
        Config {
            default_profile: None,
            registry_urls: default_registry_urls(),
            use_fzf: true,
            log_level: "info".to_owned(),
            output: "text".to_owned(),
            auto_update: false,
            auto_install_missing: true,
            strict_mode: false,
            fallback_to_plain_nvim: true,
            profiles_dir: None,
        }
    }
}

/// The string value of the top-level key `key` in the TOML document
/// `content`: `None` where the document does not parse, has no such key, or
/// holds a value of another type there. It depends on its arguments alone.
pub uninterp spec fn toml_top_level_string(content: Seq<char>, key: Seq<char>) -> Option<Seq<char>>;

/// Calls `str::parse::<toml::Value>` (toml's `from_str`) on `content`, then
/// `toml::Value::get` with `key` and `toml::Value::as_str`. The contract
/// claims only that the result is a function of the two arguments, named
/// `toml_top_level_string`; what TOML text maps to what value is not stated.
#[verifier::external_body]
fn toml_string_entry(content: &str, key: &str) -> (r: Option<String>)
    ensures
        match r {
            Some(s) => toml_top_level_string(content@, key@) == Some(s@),
            None => toml_top_level_string(content@, key@) is None,
        },
{
    content.parse::<toml::Value>().ok().and_then(|v| v.get(key).and_then(|x| x.as_str()).map(|s| s.to_string()))
}

/// Fills an empty `registry_urls` from the single-URL setting
/// `legacy`, the value that the configuration file holds under
/// `registry_url`; with no such value it falls back to the default list.
pub fn apply_legacy_registry_url(config: &mut Config, legacy: Option<String>)
    ensures
        final(config).default_profile == old(config).default_profile,
        final(config).use_fzf == old(config).use_fzf,
        final(config).log_level == old(config).log_level,
        final(config).output == old(config).output,
        final(config).auto_update == old(config).auto_update,
        final(config).auto_install_missing == old(config).auto_install_missing,
        final(config).strict_mode == old(config).strict_mode,
        final(config).fallback_to_plain_nvim == old(config).fallback_to_plain_nvim,
        final(config).profiles_dir == old(config).profiles_dir,
        old(config).registry_urls@.len() > 0 ==> final(config).registry_urls@ == old(
            config,
        ).registry_urls@,
        old(config).registry_urls@.len() == 0 ==> match legacy {
            Some(u) => final(config).registry_urls@ == seq![u],
            None => is_default_registry_list(final(config).registry_urls@),
        },
        final(config).registry_urls@.len() > 0,
{
    if config.registry_urls.len() == 0 {
        match legacy {
            Some(u) => {
                let mut v: Vec<String> = Vec::new();
                v.push(u);
                config.registry_urls = v;
            },
            None => {
                config.registry_urls = default_registry_urls();
            },
        }
    }
}

/// The repair that loading performs once the file has been parsed: where
/// `registry_urls` came out empty (the key absent, or an empty list), the
/// single `registry_url` of the raw file text `content` becomes the list;
/// without one, the default list.
pub fn normalize_registry_urls(config: &mut Config, content: &str)
    ensures
        final(config).default_profile == old(config).default_profile,
        final(config).use_fzf == old(config).use_fzf,
        final(config).log_level == old(config).log_level,
        final(config).output == old(config).output,
        final(config).auto_update == old(config).auto_update,
        final(config).auto_install_missing == old(config).auto_install_missing,
        final(config).strict_mode == old(config).strict_mode,
        final(config).fallback_to_plain_nvim == old(config).fallback_to_plain_nvim,
        final(config).profiles_dir == old(config).profiles_dir,
        old(config).registry_urls@.len() > 0 ==> final(config).registry_urls@ == old(
            config,
        ).registry_urls@,
        old(config).registry_urls@.len() == 0 ==> match toml_top_level_string(
            content@,
            "registry_url"@,
        ) {
            Some(u) => final(config).registry_urls@.len() == 1 && final(config).registry_urls@[0]@
                == u,
            None => is_default_registry_list(final(config).registry_urls@),
        },
        final(config).registry_urls@.len() > 0,
{
    if config.registry_urls.len() == 0 {
        let legacy = toml_string_entry(content, "registry_url");
        apply_legacy_registry_url(config, legacy);
    }
}

/// The configuration file that `setup` writes when there is none (or when
/// forced to): every setting with a comment, set to its recommended value.
pub open spec fn default_config_file_text() -> Seq<char> {
    "# default profile if none specified\n# \u{2192} Used when no profile argument is provided (skips fzf)\ndefault_profile = \"lazyvim\"\n\n# registry source\n# \u{2192} Remote JSON registry for profile installation\nregistry_url = \"https://raw.githubusercontent.com/zx0r/nvimx-registry/main/index.json\"\n\n# enable fzf picker\n# \u{2192} Enables interactive selection when no default_profile\nuse_fzf = true\n\n# logging\n# \u{2192} Controls verbosity level of CLI output\nlog_level = \"info\"   # debug | info | warn | error\n\n# output format\n# \u{2192} \"json\" for scripting, \"text\" for human-readable CLI\noutput = \"text\"      # text | json\n\n# auto update\n# \u{2192} Automatically update nvimx binary (not recommended by default)\nauto_update = false\n\n# fallback behavior\n# \u{2192} If profile not found \u{2192} fallback to plain nvim instead of error\nfallback_to_plain_nvim = true\n\n# custom profiles dir (advanced)\n# \u{2192} Override default XDG config path for profiles\nprofiles_dir = \"~/.config/nvim\"\n\nstrict_mode = false\n"@
}

/// The text of the default configuration file.
pub fn default_config_file() -> (r: String)
    ensures
        r@ == default_config_file_text(),
{
    "# default profile if none specified\n# \u{2192} Used when no profile argument is provided (skips fzf)\ndefault_profile = \"lazyvim\"\n\n# registry source\n# \u{2192} Remote JSON registry for profile installation\nregistry_url = \"https://raw.githubusercontent.com/zx0r/nvimx-registry/main/index.json\"\n\n# enable fzf picker\n# \u{2192} Enables interactive selection when no default_profile\nuse_fzf = true\n\n# logging\n# \u{2192} Controls verbosity level of CLI output\nlog_level = \"info\"   # debug | info | warn | error\n\n# output format\n# \u{2192} \"json\" for scripting, \"text\" for human-readable CLI\noutput = \"text\"      # text | json\n\n# auto update\n# \u{2192} Automatically update nvimx binary (not recommended by default)\nauto_update = false\n\n# fallback behavior\n# \u{2192} If profile not found \u{2192} fallback to plain nvim instead of error\nfallback_to_plain_nvim = true\n\n# custom profiles dir (advanced)\n# \u{2192} Override default XDG config path for profiles\nprofiles_dir = \"~/.config/nvim\"\n\nstrict_mode = false\n".to_owned()
}

/// What `setup` does with nvimx's configuration file.
#[derive(Clone, Copy, PartialEq, Eq, Structural, Debug)]
pub enum ConfigFileAction {
    /// There is none: create it with the default text.
    Create,
    /// It exists and `--force` was given: back it up, then write the
    /// default text over it.
    BackUpAndOverwrite,
    /// It exists: leave it as it is.
    Keep,
}

/// The action of `setup` on the configuration file, from whether the file
/// `exists` and whether `force` was given: a missing file is created, an
/// existing one is overwritten (after a backup) only when forced.
pub fn config_file_action(exists: bool, force: bool) -> (r: ConfigFileAction)
    ensures
        !exists ==> r == ConfigFileAction::Create,
        exists && force ==> r == ConfigFileAction::BackUpAndOverwrite,
        exists && !force ==> r == ConfigFileAction::Keep,
{
    if !exists {
        ConfigFileAction::Create
    } else if force {
        ConfigFileAction::BackUpAndOverwrite
    } else {
        ConfigFileAction::Keep
    }
}

/// The profile that `setup` offers to install when the default profile is
/// missing: the configured default, else `lazyvim`.
pub fn setup_profile_name(config: &Config) -> (r: String)
    ensures
        match config.default_profile {
            Some(p) => r@ == p@,
            None => r@ == "lazyvim"@,
        },
{
    match &config.default_profile {
        Some(p) => p.clone(),
        None => "lazyvim".to_owned(),
    }
}

} // verus!
