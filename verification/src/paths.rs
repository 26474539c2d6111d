//! Paths as strings, with the joining and parent rules of a Unix `PathBuf`,
//! and the directory layout of nvimx built from them: the XDG roots, the
//! nvimx configuration and backup directories, and profile directories.
use vstd::prelude::*;
use crate::profile::law_component_is_a_child;
use crate::text::{chars_of, concat_str, contains_char, has_char, has_prefix, opt_view, replace_all, replace_str, slice_string, starts_with_char, starts_with_str, str_eq};

verus! {

/// The path begins at the root.
pub open spec fn is_absolute(p: Seq<char>) -> bool {
    p.len() > 0 && p[0] == '/'
}

/// `part` appended to `base` as `PathBuf::push` does on Unix: an absolute
/// `part` replaces `base`; otherwise a separator goes between them unless
/// `base` is empty or already ends with one.
pub open spec fn path_join(base: Seq<char>, part: Seq<char>) -> Seq<char> {
    if is_absolute(part) {
        part
    } else if base.len() == 0 || base.last() == '/' {
        base + part
    } else {
        base + seq!['/'] + part
    }
}

/// A relative path whose first component is `.`.
pub open spec fn starts_cur_dir(p: Seq<char>) -> bool {
    !is_absolute(p) && p.len() > 0 && p[0] == '.' && (p.len() == 1 || p[1] == '/')
}

/// The length of the part of `p` that no trimming removes: the root, or a
/// leading `.` component.
pub open spec fn body_start(p: Seq<char>) -> int {
    if is_absolute(p) || starts_cur_dir(p) {
        1
    } else {
        0
    }
}

/// The position of the last separator in `p[b..n]`, or -1.
pub open spec fn last_sep_in(p: Seq<char>, b: int, n: int) -> int
    decreases n - b,
{
    if n <= b {
        -1
    } else if p[n - 1] == '/' {
        n - 1
    } else {
        last_sep_in(p, b, n - 1)
    }
}

/// Where the last segment of `p[b..n]` begins.
pub open spec fn seg_start(p: Seq<char>, b: int, n: int) -> int {
    let s = last_sep_in(p, b, n);
    if s < 0 {
        b
    } else {
        s + 1
    }
}

/// How many characters the last segment of `p[b..n]` takes, with the
/// separator before it.
pub open spec fn seg_size(p: Seq<char>, b: int, n: int) -> int {
    let s = last_sep_in(p, b, n);
    if s < 0 {
        n - b
    } else {
        n - s
    }
}

/// A segment that names a component: neither empty nor `.`.
pub open spec fn is_real_segment(c: Seq<char>) -> bool {
    c.len() > 0 && c != seq!['.']
}

pub proof fn lemma_last_sep_range(p: Seq<char>, b: int, n: int)
    requires
        b < n,
    ensures
        last_sep_in(p, b, n) == -1 || b <= last_sep_in(p, b, n) < n,
        1 <= seg_size(p, b, n) <= n - b,
        b <= seg_start(p, b, n) <= n,
        seg_start(p, b, n) + seg_size(p, b, n) <= n + 1,
    decreases n - b,
{
    if p[n - 1] != '/' {
        if n - 1 > b {
            lemma_last_sep_range(p, b, n - 1);
        } else {
            assert(last_sep_in(p, b, n - 1) == -1);
        }
    }
}

/// The length that remains of `p[..n]` once trailing separators and `.`
/// segments are removed, never cutting into the first `b` characters.
pub open spec fn trim_end(p: Seq<char>, b: int, n: int) -> int
    decreases n,
{
    if n <= b || b < 0 {
        n
    } else if is_real_segment(p.subrange(seg_start(p, b, n), n)) {
        n
    } else {
        proof {
            lemma_last_sep_range(p, b, n);
        }
        trim_end(p, b, n - seg_size(p, b, n))
    }
}

/// The length that remains of `p[..n]` once its last named component is
/// removed and the rest trimmed; `None` where it has no such component.
pub open spec fn strip_last(p: Seq<char>, b: int, n: int) -> Option<int>
    decreases n,
{
    if n <= b || b < 0 {
        None
    } else {
        proof {
            lemma_last_sep_range(p, b, n);
        }
        let k = n - seg_size(p, b, n);
        if is_real_segment(p.subrange(seg_start(p, b, n), n)) {
            Some(trim_end(p, b, k))
        } else {
            strip_last(p, b, k)
        }
    }
}

/// The parent of `p`, as `Path::parent` gives it on Unix: `None` for the
/// root and the empty path.
pub open spec fn path_parent(p: Seq<char>) -> Option<Seq<char>> {
    match strip_last(p, body_start(p), p.len() as int) {
        Some(k) => Some(p.subrange(0, k)),
        None => if starts_cur_dir(p) {
            Some(Seq::<char>::empty())
        } else {
            None
        },
    }
}

/// `base` joined with `part`, by the rule of `path_join`.
pub fn join_path(base: &str, part: &str) -> (r: String)
    ensures
        r@ == path_join(base@, part@),
{
    proof {
        reveal_strlit("/");
    }
    if starts_with_char(part, '/') {
        part.to_owned()
    } else {
        let n = base.unicode_len();
        if n == 0 || base.get_char(n - 1) == '/' {
            concat_str(base, part)
        } else {
            let with_sep = concat_str(base, "/");
            let r = concat_str(with_sep.as_str(), part);
            assert(r@ =~= base@ + seq!['/'] + part@);
            r
        }
    }
}

fn body_start_of(v: &Vec<char>) -> (b: usize)
    ensures
        b as int == body_start(v@),
{
    let n = v.len();
    if n > 0 && v[0] == '/' {
        1
    } else if n > 0 && v[0] == '.' && (n == 1 || v[1] == '/') {
        1
    } else {
        0
    }
}

/// The size of the last segment of `v[b..n]` and whether it is named.
fn last_segment(v: &Vec<char>, b: usize, n: usize) -> (r: (usize, bool))
    requires
        b < n <= v.len(),
    ensures
        r.0 as int == seg_size(v@, b as int, n as int),
        r.1 == is_real_segment(v@.subrange(seg_start(v@, b as int, n as int), n as int)),
{
    proof {
        lemma_last_sep_range(v@, b as int, n as int);
    }
    let mut j: usize = n;
    while j > b && v[j - 1] != '/'
        invariant
            b <= j <= n <= v.len(),
            last_sep_in(v@, b as int, n as int) == last_sep_in(v@, b as int, j as int),
        decreases j,
    {
        j = j - 1;
    }
    // `j` is where the last segment begins.
    let start = j;
    let size = if j > b {
        n - j + 1
    } else {
        n - b
    };
    let len = n - start;
    let named = len > 0 && !(len == 1 && v[start] == '.');
    proof {
        let seg = v@.subrange(seg_start(v@, b as int, n as int), n as int);
        assert(seg_start(v@, b as int, n as int) == start as int);
        if len == 1 && v@[start as int] == '.' {
            assert(seg =~= seq!['.']);
        }
        if len == 1 && v@[start as int] != '.' {
            assert(seg[0] != '.');
        }
    }
    (size, named)
}

/// The trimmed length `trim_end(v, b, n)`.
fn trim_end_len(v: &Vec<char>, b: usize, n: usize) -> (k: usize)
    requires
        b <= n <= v.len(),
    ensures
        k as int == trim_end(v@, b as int, n as int),
        k <= n,
{
    let mut k = n;
    while k > b
        invariant
            b <= k <= n <= v.len(),
            trim_end(v@, b as int, n as int) == trim_end(v@, b as int, k as int),
        decreases k,
    {
        let (size, named) = last_segment(v, b, k);
        if named {
            return k;
        }
        proof {
            lemma_last_sep_range(v@, b as int, k as int);
        }
        k = k - size;
    }
    k
}

/// The parent of `p`, by the rule of `path_parent`.
pub fn parent_path(p: &str) -> (r: Option<String>)
    ensures
        match r {
            Some(s) => path_parent(p@) == Some(s@),
            None => path_parent(p@) is None,
        },
{
    let v = chars_of(p);
    let b = body_start_of(&v);
    let mut n = v.len();
    while n > b
        invariant
            v@ == p@,
            b as int == body_start(p@),
            b <= n <= v.len(),
            strip_last(v@, b as int, v@.len() as int) == strip_last(v@, b as int, n as int),
        decreases n,
    {
        let (size, named) = last_segment(&v, b, n);
        proof {
            lemma_last_sep_range(v@, b as int, n as int);
        }
        if named {
            let k = trim_end_len(&v, b, n - size);
            return Some(slice_string(p, 0, k));
        }
        n = n - size;
    }
    if v.len() > 0 && v[0] == '.' && (v.len() == 1 || v[1] == '/') {
        Some(String::new())
    } else {
        None
    }
}

/// The base directory of one XDG category, by the XDG Base Directory rules:
/// the value of its environment variable where that is set to an absolute
/// path; else (unset, empty or relative) `fallback` under the home directory
/// (the empty path where there is none).
pub open spec fn xdg_base(var: Option<Seq<char>>, home: Option<Seq<char>>, fallback: Seq<char>) -> Seq<char> {
    match var {
        Some(v) if is_absolute(v) => v,
        _ => path_join(
            match home {
                Some(h) => h,
                None => Seq::<char>::empty(),
            },
            fallback,
        ),
    }
}

/// The Neovim directory of one XDG category.
pub open spec fn xdg_nvim_root(var: Option<Seq<char>>, home: Option<Seq<char>>, fallback: Seq<char>) -> Seq<char> {
    path_join(xdg_base(var, home, fallback), "nvim"@)
}

/// The base directory of one XDG category, by the rule of `xdg_base`.
pub fn xdg_base_dir(var: Option<String>, home: Option<String>, fallback: &str) -> (r: String)
    ensures
        r@ == xdg_base(opt_view(var), opt_view(home), fallback@),
{
    match var {
        Some(v) if starts_with_char(v.as_str(), '/') => v,
        _ => {
            let h = match home {
                Some(h) => h,
                None => String::new(),
            };
            join_path(h.as_str(), fallback)
        },
    }
}

fn xdg_root(var: Option<String>, home: Option<String>, fallback: &str) -> (r: String)
    ensures
        r@ == xdg_nvim_root(opt_view(var), opt_view(home), fallback@),
{
    let base = xdg_base_dir(var, home, fallback);
    join_path(base.as_str(), "nvim")
}

/// The Neovim configuration root: `$XDG_CONFIG_HOME/nvim` where that
/// variable holds an absolute path, else `~/.config/nvim`. The caller hands over the variable (where it is set)
/// and the home directory (where one is known).
pub fn config_root(xdg_config_home: Option<String>, home: Option<String>) -> (r: String)
    ensures
        r@ == xdg_nvim_root(opt_view(xdg_config_home), opt_view(home), ".config"@),
{
    xdg_root(xdg_config_home, home, ".config")
}

/// The Neovim data root: `$XDG_DATA_HOME/nvim` where that variable holds
/// an absolute path, else `~/.local/share/nvim`.
pub fn data_root(xdg_data_home: Option<String>, home: Option<String>) -> (r: String)
    ensures
        r@ == xdg_nvim_root(opt_view(xdg_data_home), opt_view(home), ".local/share"@),
{
    xdg_root(xdg_data_home, home, ".local/share")
}

/// The Neovim state root: `$XDG_STATE_HOME/nvim` where that variable holds
/// an absolute path, else `~/.local/state/nvim`.
pub fn state_root(xdg_state_home: Option<String>, home: Option<String>) -> (r: String)
    ensures
        r@ == xdg_nvim_root(opt_view(xdg_state_home), opt_view(home), ".local/state"@),
{
    xdg_root(xdg_state_home, home, ".local/state")
}

/// The Neovim cache root: `$XDG_CACHE_HOME/nvim` where that variable holds
/// an absolute path, else `~/.cache/nvim`.
pub fn cache_root(xdg_cache_home: Option<String>, home: Option<String>) -> (r: String)
    ensures
        r@ == xdg_nvim_root(opt_view(xdg_cache_home), opt_view(home), ".cache"@),
{
    xdg_root(xdg_cache_home, home, ".cache")
}

/// The XDG cache home itself (not Neovim's directory in it):
/// `$XDG_CACHE_HOME` where that holds an absolute path, else `~/.cache`.
pub fn cache_home(xdg_cache_home: Option<String>, home: Option<String>) -> (r: String)
    ensures
        r@ == xdg_base(opt_view(xdg_cache_home), opt_view(home), ".cache"@),
{
    xdg_base_dir(xdg_cache_home, home, ".cache")
}

/// A directory that cannot be derived because its root has no parent.
#[derive(Clone, Copy, PartialEq, Eq, Structural, Debug)]
pub enum DirError {
    ConfigRootHasNoParent,
    DataRootHasNoParent,
}

/// The text of a `DirError`.
pub open spec fn dir_error_text(e: DirError) -> Seq<char> {
    match e {
        DirError::ConfigRootHasNoParent => "config_root has no parent"@,
        DirError::DataRootHasNoParent => "data_root has no parent"@,
    }
}

impl DirError {
    /// The error's text.
    pub fn message(&self) -> (r: String)
        ensures
            r@ == dir_error_text(*self),
    {
        match self {
            DirError::ConfigRootHasNoParent => "config_root has no parent".to_owned(),
            DirError::DataRootHasNoParent => "data_root has no parent".to_owned(),
        }
    }
}

/// The directory of nvimx's own configuration: `nvimx` beside the Neovim
/// configuration root `config_root`.
pub fn nvimx_config_dir(config_root: &str) -> (r: Result<String, DirError>)
    ensures
        match path_parent(config_root@) {
            Some(parent) => r matches Ok(d) && d@ == path_join(parent, "nvimx"@),
            None => r == Err::<String, DirError>(DirError::ConfigRootHasNoParent),
        },
{
    match parent_path(config_root) {
        Some(parent) => Ok(join_path(parent.as_str(), "nvimx")),
        None => Err(DirError::ConfigRootHasNoParent),
    }
}

/// The directory of backups: `nvimx/backups` beside the Neovim data root
/// `data_root`.
pub fn backup_dir(data_root: &str) -> (r: Result<String, DirError>)
    ensures
        match path_parent(data_root@) {
            Some(parent) => r matches Ok(d) && d@ == path_join(path_join(parent, "nvimx"@), "backups"@),
            None => r == Err::<String, DirError>(DirError::DataRootHasNoParent),
        },
{
    match parent_path(data_root) {
        Some(parent) => {
            let nvimx = join_path(parent.as_str(), "nvimx");
            Ok(join_path(nvimx.as_str(), "backups"))
        },
        None => Err(DirError::DataRootHasNoParent),
    }
}

/// The configuration directory of the profile `name` under `config_root`.
pub fn profile_dir(config_root: &str, name: &str) -> (r: String)
    ensures
        r@ == path_join(config_root@, name@),
{
    join_path(config_root, name)
}

/// The directory that holds the profiles: the configured `profiles_dir`,
/// with a leading `~/` or a whole `~` standing for the home directory (the
/// empty path where none is known); without a setting, `config_root`.
pub open spec fn profiles_dir_spec(setting: Option<Seq<char>>, home: Option<Seq<char>>, config_root: Seq<char>) -> Seq<char> {
    let h = match home {
        Some(h) => h,
        None => Seq::<char>::empty(),
    };
    match setting {
        Some(dir) => if has_prefix(dir, "~/"@) {
            path_join(h, dir.skip(2))
        } else if dir == "~"@ {
            h
        } else {
            dir
        },
        None => config_root,
    }
}

/// Where the profiles live, by the rule of `profiles_dir_spec`.
pub fn get_profiles_dir(setting: &Option<String>, home: Option<String>, config_root: &str) -> (r: String)
    ensures
        r@ == profiles_dir_spec(opt_view(*setting), opt_view(home), config_root@),
{
    proof {
        reveal_strlit("~/");
        reveal_strlit("~");
    }
    let h = match home {
        Some(h) => h,
        None => String::new(),
    };
    match setting {
        Some(dir) => {
            if starts_with_str(dir.as_str(), "~/") {
                let n = dir.as_str().unicode_len();
                let rest = slice_string(dir.as_str(), 2, n);
                proof {
                    assert(rest@ =~= dir@.skip(2));
                }
                join_path(h.as_str(), rest.as_str())
            } else if str_eq(dir.as_str(), "~") {
                h
            } else {
                dir.clone()
            }
        },
        None => config_root.to_owned(),
    }
}

/// A path for display, with the home directory shown as `~` where the path
/// begins with it (only that first occurrence is replaced).
pub open spec fn shorten_leading_home(path: Seq<char>, home: Option<Seq<char>>) -> Seq<char> {
    match home {
        Some(h) => if has_prefix(path, h) {
            "~"@ + path.skip(h.len() as int)
        } else {
            path
        },
        None => path,
    }
}

/// `path` for display, by the rule of `shorten_leading_home`.
pub fn shorten_path(path: &str, home: Option<String>) -> (r: String)
    ensures
        r@ == shorten_leading_home(path@, opt_view(home)),
{
    match home {
        Some(h) => {
            if starts_with_str(path, h.as_str()) {
                let n = path.unicode_len();
                let rest = slice_string(path, h.as_str().unicode_len(), n);
                proof {
                    assert(rest@ =~= path@.skip(h@.len() as int));
                }
                concat_str("~", rest.as_str())
            } else {
                path.to_owned()
            }
        },
        None => path.to_owned(),
    }
}

/// A path for display, with every occurrence of the home directory shown as
/// `~`.
pub open spec fn shorten_every_home(path: Seq<char>, home: Option<Seq<char>>) -> Seq<char> {
    match home {
        Some(h) => replace_all(path, h, "~"@),
        None => path,
    }
}

/// `path` for display, by the rule of `shorten_every_home`.
pub fn shorten_path_everywhere(path: &str, home: Option<String>) -> (r: String)
    ensures
        r@ == shorten_every_home(path@, opt_view(home)),
{
    match home {
        Some(h) => replace_str(path, h.as_str(), "~"),
        None => path.to_owned(),
    }
}

/// One directory that `clean` may delete, with the label it is shown with.
pub struct CleanTarget {
    pub label: String,
    pub path: String,
}

/// A name that is one path component: not empty, without a separator, and
/// neither `.` nor `..`. Joined to a directory, it names an entry directly
/// inside that directory.
pub open spec fn single_component(name: Seq<char>) -> bool {
    name.len() > 0 && !has_char(name, '/') && name != seq!['.'] && name != seq!['.', '.']
}

/// Whether `name` is a single path component.
pub fn is_single_component(name: &str) -> (r: bool)
    ensures
        r == single_component(name@),
{
    proof {
        reveal_strlit(".");
        reveal_strlit("..");
        assert("."@ =~= seq!['.']);
        assert(".."@ =~= seq!['.', '.']);
    }
    name.unicode_len() > 0 && !contains_char(name, '/') && !str_eq(name, ".") && !str_eq(name, "..")
}

/// `dir` in the normal form that `Path::parent` gives a parent in.
pub open spec fn normal_dir(dir: Seq<char>) -> Seq<char> {
    dir.subrange(0, trim_end(dir, body_start(dir), dir.len() as int))
}

/// The directories of `profile` that `clean` considers, in this order: its
/// configuration, data, state and cache, each the profile's name joined to
/// the matching Neovim root. Only a name that is a single path component
/// has any: for another, such as `/`, `..` or `a/b`, there are none, so
/// nothing but an entry directly inside one of the four roots can be
/// offered for deletion.
pub fn clean_targets(
    config_root: &str,
    data_root: &str,
    state_root: &str,
    cache_root: &str,
    profile: &str,
) -> (r: Option<Vec<CleanTarget>>)
    ensures
        r is Some <==> single_component(profile@),
        r matches Some(v) ==> {
            &&& v@.len() == 4
            &&& v@[0].label@ == "Config"@ && v@[0].path@ == path_join(config_root@, profile@)
            &&& v@[1].label@ == "Data"@ && v@[1].path@ == path_join(data_root@, profile@)
            &&& v@[2].label@ == "State"@ && v@[2].path@ == path_join(state_root@, profile@)
            &&& v@[3].label@ == "Cache"@ && v@[3].path@ == path_join(cache_root@, profile@)
            &&& path_parent(v@[0].path@) == Some(normal_dir(config_root@))
            &&& path_parent(v@[1].path@) == Some(normal_dir(data_root@))
            &&& path_parent(v@[2].path@) == Some(normal_dir(state_root@))
            &&& path_parent(v@[3].path@) == Some(normal_dir(cache_root@))
        },
{
    if !is_single_component(profile) {
        return None;
    }
    proof {
        law_component_is_a_child(config_root@, profile@);
        law_component_is_a_child(data_root@, profile@);
        law_component_is_a_child(state_root@, profile@);
        law_component_is_a_child(cache_root@, profile@);
    }
    let mut v: Vec<CleanTarget> = Vec::new();
    v.push(CleanTarget { label: "Config".to_owned(), path: profile_dir(config_root, profile) });
    v.push(CleanTarget { label: "Data".to_owned(), path: join_path(data_root, profile) });
    v.push(CleanTarget { label: "State".to_owned(), path: join_path(state_root, profile) });
    v.push(CleanTarget { label: "Cache".to_owned(), path: join_path(cache_root, profile) });
    Some(v)
}

} // verus!
