//! The throwaway environment of `sandbox`: where its directories go, and
//! the title that marks its Neovim window.
use vstd::prelude::*;
use crate::paths::{join_path, normal_dir, path_join, path_parent};
use crate::profile::{law_profile_dir_is_a_child, valid_profile_name};
use crate::text::{concat_str, replace_all, replace_str};

verus! {

/// The directories of a sandbox.
pub struct SandboxLayout {
    /// The sandbox itself, wiped before each run.
    pub root: String,
    /// What `XDG_CONFIG_HOME` points at.
    pub config_home: String,
    /// What `XDG_DATA_HOME` points at.
    pub data_home: String,
    /// What `XDG_STATE_HOME` points at.
    pub state_home: String,
    /// What `XDG_CACHE_HOME` points at.
    pub cache_home: String,
    /// Where the profile is cloned: `nvim` in the configuration home.
    pub nvim_config_dir: String,
}

/// The directory that holds every sandbox: `nvimx/sandbox` in the XDG cache
/// home `cache_home`.
pub open spec fn sandboxes_dir(cache_home: Seq<char>) -> Seq<char> {
    path_join(path_join(cache_home, "nvimx"@), "sandbox"@)
}

/// The directories of the sandbox of `profile` under the XDG cache home
/// `cache_home` (as `paths::cache_home` gives it): `nvimx/sandbox/<profile>`
/// holding `config`, `data`, `state` and `cache`, the profile going to
/// `config/nvim`.
pub fn sandbox_layout(cache_home: &str, profile: &str) -> (r: SandboxLayout)
    ensures
        r.root@ == path_join(sandboxes_dir(cache_home@), profile@),
        r.config_home@ == path_join(r.root@, "config"@),
        r.data_home@ == path_join(r.root@, "data"@),
        r.state_home@ == path_join(r.root@, "state"@),
        r.cache_home@ == path_join(r.root@, "cache"@),
        r.nvim_config_dir@ == path_join(r.config_home@, "nvim"@),
{
    let nvimx = join_path(cache_home, "nvimx");
    let sandboxes = join_path(nvimx.as_str(), "sandbox");
    let root = join_path(sandboxes.as_str(), profile);
    let config_home = join_path(root.as_str(), "config");
    let data_home = join_path(root.as_str(), "data");
    let state_home = join_path(root.as_str(), "state");
    let cache_home = join_path(root.as_str(), "cache");
    let nvim_config_dir = join_path(config_home.as_str(), "nvim");
    SandboxLayout { root, config_home, data_home, state_home, cache_home, nvim_config_dir }
}

/// The `--cmd` argument that titles the sandbox's window: `set title
/// titlestring=nvimx sandbox: <profile>`, each space of the title escaped
/// with a backslash.
pub open spec fn sandbox_title_spec(profile: Seq<char>) -> Seq<char> {
    "set title titlestring="@ + replace_all("nvimx sandbox: "@ + profile, " "@, "\\ "@)
}

/// The `--cmd` argument that titles the sandbox of `profile`.
pub fn sandbox_title_command(profile: &str) -> (r: String)
    ensures
        r@ == sandbox_title_spec(profile@),
{
    let title = concat_str("nvimx sandbox: ", profile);
    let escaped = replace_str(title.as_str(), " ", "\\ ");
    concat_str("set title titlestring=", escaped.as_str())
}

/// The sandbox keeps its four XDG homes apart and inside itself: each of
/// `config`, `data`, `state` and `cache` lies directly inside the sandbox
/// root, whatever the cache home and the profile.
pub proof fn law_sandbox_homes_inside_root(cache_home: Seq<char>, profile: Seq<char>)
    ensures
        ({
            let root = path_join(sandboxes_dir(cache_home), profile);
            &&& path_parent(path_join(root, "config"@)) == Some(normal_dir(root))
            &&& path_parent(path_join(root, "data"@)) == Some(normal_dir(root))
            &&& path_parent(path_join(root, "state"@)) == Some(normal_dir(root))
            &&& path_parent(path_join(root, "cache"@)) == Some(normal_dir(root))
        }),
{
    reveal_strlit("config");
    reveal_strlit("data");
    reveal_strlit("state");
    reveal_strlit("cache");
    let root = path_join(sandboxes_dir(cache_home), profile);
    assert(valid_profile_name("config"@));
    assert(valid_profile_name("data"@));
    assert(valid_profile_name("state"@));
    assert(valid_profile_name("cache"@));
    law_profile_dir_is_a_child(root, "config"@);
    law_profile_dir_is_a_child(root, "data"@);
    law_profile_dir_is_a_child(root, "state"@);
    law_profile_dir_is_a_child(root, "cache"@);
}

/// The sandbox of a profile with a valid name lies directly inside the
/// `nvimx/sandbox` directory of the cache home, so wiping it touches nothing
/// else.
pub proof fn law_sandbox_root_inside_cache(cache_home: Seq<char>, profile: Seq<char>)
    requires
        valid_profile_name(profile),
    ensures
        path_parent(path_join(sandboxes_dir(cache_home), profile)) == Some(
            normal_dir(sandboxes_dir(cache_home)),
        ),
{
    law_profile_dir_is_a_child(sandboxes_dir(cache_home), profile);
}

} // verus!
