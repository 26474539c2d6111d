//! The health report of `doctor`: the status of each check, the overall
//! outcome, and the version read from a tool's `--version` output.
use vstd::prelude::*;
use crate::text::{
    chars_of, concat_str, is_numeric, is_whitespace, slice_string, str_eq, unicode_numeric,
    unicode_whitespace,
};

use crate::registry::{cache_is_fresh, meta_fresh, RegistryMeta};

verus! {

/// The outcome of one check.
#[derive(Clone, Copy, PartialEq, Eq, Structural, Debug)]
pub enum Status {
    Good,
    Warn,
    Error,
}

/// The name of a status in the JSON report.
pub open spec fn status_name_spec(s: Status) -> Seq<char> {
    match s {
        Status::Good => "ok"@,
        Status::Warn => "warn"@,
        Status::Error => "error"@,
    }
}

/// The name of `s` in the JSON report.
pub fn status_name(s: Status) -> (r: &'static str)
    ensures
        r@ == status_name_spec(s),
{
    match s {
        Status::Good => "ok",
        Status::Warn => "warn",
        Status::Error => "error",
    }
}

/// The statuses of all checks.
pub struct DoctorReport {
    pub nvim: Status,
    pub git: Status,
    pub fzf: Status,
    pub config: Status,
    pub registry: Status,
    pub profiles: Status,
    /// The XDG directories of Neovim: present and writable.
    pub paths: Status,
    /// The registry cache: present and fresh.
    pub cache: Status,
}

/// The report before any check has run: the tools and the registry count
/// as failed and the optional parts as warnings until shown otherwise.
pub fn initial_report() -> (r: DoctorReport)
    ensures
        r.nvim == Status::Error,
        r.git == Status::Error,
        r.fzf == Status::Warn,
        r.config == Status::Good,
        r.registry == Status::Error,
        r.profiles == Status::Warn,
        r.paths == Status::Error,
        r.cache == Status::Warn,
{
    DoctorReport {
        nvim: Status::Error,
        git: Status::Error,
        fzf: Status::Warn,
        config: Status::Good,
        registry: Status::Error,
        profiles: Status::Warn,
        paths: Status::Error,
        cache: Status::Warn,
    }
}

/// The overall outcome: an error when nvim, git, the registry or the XDG
/// directories failed; else a warning when fzf, the profiles or the XDG
/// directories warned; else all is well. The cache's state is shown, and
/// does not count: an old or missing cache is refetched as needed.
pub open spec fn overall_spec(r: DoctorReport) -> Status {
    if r.nvim == Status::Error || r.git == Status::Error || r.registry == Status::Error
        || r.paths == Status::Error {
        Status::Error
    } else if r.fzf == Status::Warn || r.profiles == Status::Warn || r.paths == Status::Warn {
        Status::Warn
    } else {
        Status::Good
    }
}

/// The overall outcome is the worst of the checks that count: an error
/// when nvim, git, the registry or the XDG directories failed, whichever of
/// them it is; otherwise a warning when fzf, the profiles or the XDG
/// directories warned; and all is well only when none of these did.
pub proof fn law_overall_is_the_worst(r: DoctorReport)
    ensures
        r.nvim == Status::Error ==> overall_spec(r) == Status::Error,
        r.git == Status::Error ==> overall_spec(r) == Status::Error,
        r.registry == Status::Error ==> overall_spec(r) == Status::Error,
        r.paths == Status::Error ==> overall_spec(r) == Status::Error,
        overall_spec(r) == Status::Error ==> (r.nvim == Status::Error || r.git == Status::Error
            || r.registry == Status::Error || r.paths == Status::Error),
        overall_spec(r) == Status::Good <==> (r.nvim != Status::Error && r.git != Status::Error
            && r.registry != Status::Error && r.paths == Status::Good && r.fzf != Status::Warn
            && r.profiles != Status::Warn),
        (r.fzf == Status::Warn || r.profiles == Status::Warn || r.paths == Status::Warn)
            ==> overall_spec(r) != Status::Good,
{
}

/// The overall outcome of `report`.
pub fn overall(report: &DoctorReport) -> (r: Status)
    ensures
        r == overall_spec(*report),
{
    if report.nvim == Status::Error || report.git == Status::Error || report.registry
        == Status::Error || report.paths == Status::Error {
        Status::Error
    } else if report.fzf == Status::Warn || report.profiles == Status::Warn || report.paths
        == Status::Warn {
        Status::Warn
    } else {
        Status::Good
    }
}

/// The status of one XDG directory: present and writable is well; missing
/// is a warning (it is created when first needed); present but not
/// writable is an error.
pub open spec fn dir_status_spec(exists: bool, writable: bool) -> Status {
    if !exists {
        Status::Warn
    } else if writable {
        Status::Good
    } else {
        Status::Error
    }
}

/// The status of a directory that `exists` (or not) and is `writable` (or
/// not).
pub fn dir_status(exists: bool, writable: bool) -> (r: Status)
    ensures
        r == dir_status_spec(exists, writable),
{
    if !exists {
        Status::Warn
    } else if writable {
        Status::Good
    } else {
        Status::Error
    }
}

/// How bad a status is: well, warning, error.
pub open spec fn severity(s: Status) -> int {
    match s {
        Status::Good => 0,
        Status::Warn => 1,
        Status::Error => 2,
    }
}

/// The worse of two statuses.
pub fn worse(a: Status, b: Status) -> (r: Status)
    ensures
        r == (if severity(a) >= severity(b) { a } else { b }),
{
    let sa: u8 = match a {
        Status::Good => 0,
        Status::Warn => 1,
        Status::Error => 2,
    };
    let sb: u8 = match b {
        Status::Good => 0,
        Status::Warn => 1,
        Status::Error => 2,
    };
    if sa >= sb {
        a
    } else {
        b
    }
}

/// The state of the registry cache, from its metadata (`None`: no cache)
/// read at `now`: fresh is well; old or missing is a warning.
pub fn cache_status(meta: Option<RegistryMeta>, now: u64) -> (r: Status)
    ensures
        r == if meta_fresh(meta, now) {
            Status::Good
        } else {
            Status::Warn
        },
{
    let fresh = match &meta {
        Some(m) => cache_is_fresh(now, m),
        None => false,
    };
    if fresh {
        Status::Good
    } else {
        Status::Warn
    }
}

/// The status of the profiles check for `count` installed profiles.
pub fn profiles_status(count: usize) -> (r: Status)
    ensures
        r == if count > 0 {
            Status::Good
        } else {
            Status::Warn
        },
{
    if count > 0 {
        Status::Good
    } else {
        Status::Warn
    }
}

/// The first line of `s`, as `str::lines` yields it: up to the first line
/// feed, less a carriage return just before it.
pub open spec fn first_line_spec(s: Seq<char>) -> Seq<char> {
    if exists|i: int| 0 <= i < s.len() && s[i] == '\n' {
        let i = choose|i: int|
            0 <= i < s.len() && s[i] == '\n' && forall|k: int| 0 <= k < i ==> s[k] != '\n';
        if i > 0 && s[i - 1] == '\r' {
            s.subrange(0, i - 1)
        } else {
            s.subrange(0, i)
        }
    } else {
        s
    }
}

/// Where the run of non-whitespace characters that begins at `i` ends.
pub open spec fn word_end(s: Seq<char>, i: int) -> int
    decreases s.len() - i,
{
    if i >= s.len() || i < 0 {
        i
    } else if unicode_whitespace(s[i]) {
        i
    } else {
        word_end(s, i + 1)
    }
}

/// Some character of `w` is numeric.
pub open spec fn has_numeric(w: Seq<char>) -> bool {
    exists|k: int| 0 <= k < w.len() && unicode_numeric(#[trigger] w[k])
}

/// The first whitespace-separated word of `s[i..]` that holds a numeric
/// character.
pub open spec fn first_numeric_word(s: Seq<char>, i: int) -> Option<Seq<char>>
    decreases s.len() - i,
{
    if i >= s.len() || i < 0 {
        None
    } else if unicode_whitespace(s[i]) {
        first_numeric_word(s, i + 1)
    } else {
        let j = word_end(s, i);
        proof {
            lemma_word_end(s, i);
        }
        if j <= i {
            None
        } else if has_numeric(s.subrange(i, j)) {
            Some(s.subrange(i, j))
        } else {
            first_numeric_word(s, j)
        }
    }
}

/// The version that `doctor` shows for the tool `bin`, from the standard
/// output of `bin --version` (`None`: the tool could not be run): the
/// first word of the first line that holds a digit, else that whole line;
/// for `nvim`, with a `v` put in front where it lacks one.
pub open spec fn version_spec(bin: Seq<char>, stdout: Option<Seq<char>>) -> Seq<char> {
    match stdout {
        None => "missing"@,
        Some(out) => {
            let line = first_line_spec(out);
            let version = match first_numeric_word(line, 0) {
                Some(w) => w,
                None => line,
            };
            if bin == "nvim"@ && !(version.len() > 0 && version[0] == 'v') {
                "v"@ + version
            } else {
                version
            }
        },
    }
}

pub proof fn lemma_word_end(s: Seq<char>, i: int)
    requires
        0 <= i <= s.len(),
    ensures
        i <= word_end(s, i) <= s.len(),
        forall|k: int| i <= k < word_end(s, i) ==> !unicode_whitespace(s[k]),
        word_end(s, i) < s.len() ==> unicode_whitespace(s[word_end(s, i)]),
    decreases s.len() - i,
{
    if i < s.len() && !unicode_whitespace(s[i]) {
        lemma_word_end(s, i + 1);
    }
}

/// `s[a..b]` is a whole whitespace-separated word of `s`: non-empty, free
/// of whitespace, and bounded by whitespace or the ends of `s`.
pub open spec fn is_word(s: Seq<char>, a: int, b: int) -> bool {
    &&& 0 <= a < b <= s.len()
    &&& (a == 0 || unicode_whitespace(s[a - 1]))
    &&& (b == s.len() || unicode_whitespace(s[b]))
    &&& forall|k: int| a <= k < b ==> !unicode_whitespace(#[trigger] s[k])
}

proof fn lemma_word_is_unique(s: Seq<char>, a: int, b1: int, b2: int)
    requires
        is_word(s, a, b1),
        is_word(s, a, b2),
    ensures
        b1 == b2,
{
    if b1 < b2 {
        assert(!unicode_whitespace(s[b1]));
    } else if b2 < b1 {
        assert(!unicode_whitespace(s[b2]));
    }
}

proof fn lemma_numeric_word_from(s: Seq<char>, i: int)
    requires
        0 <= i <= s.len(),
        i == 0 || i == s.len() || unicode_whitespace(s[i - 1]) || unicode_whitespace(s[i]),
    ensures
        match first_numeric_word(s, i) {
            Some(w) => exists|a: int, b: int|
                #![trigger is_word(s, a, b)]
                is_word(s, a, b) && i <= a && w == s.subrange(a, b) && has_numeric(w) && forall|
                    a2: int,
                    b2: int,
                | #![trigger is_word(s, a2, b2)]
                    is_word(s, a2, b2) && i <= a2 < a ==> !has_numeric(s.subrange(a2, b2)),
            None => forall|a: int, b: int|
                #![trigger is_word(s, a, b)]
                is_word(s, a, b) && i <= a ==> !has_numeric(s.subrange(a, b)),
        },
    decreases s.len() - i,
{
    if i >= s.len() {
    } else if unicode_whitespace(s[i]) {
        lemma_numeric_word_from(s, i + 1);
        assert forall|a: int, b: int| is_word(s, a, b) && i <= a implies i + 1 <= a by {
            if a == i {
                assert(!unicode_whitespace(s[a]));
            }
        }
    } else {
        let j = word_end(s, i);
        lemma_word_end(s, i);
        assert(word_end(s, i) == word_end(s, i + 1));
        lemma_word_end(s, i + 1);
        assert(is_word(s, i, j));
        // No word starts strictly inside `s[i..j]`.
        assert forall|a: int, b: int| is_word(s, a, b) && i <= a < j implies a == i && b == j by {
            if a > i {
                assert(!unicode_whitespace(s[a - 1]));
            }
            lemma_word_is_unique(s, i, b, j);
        }
        if !has_numeric(s.subrange(i, j)) {
            lemma_numeric_word_from(s, j);
        }
    }
}

/// The version word that `doctor` picks is the first word of the line that
/// holds a numeric character: when there is one, the result is a whole
/// whitespace-separated word of the line, it holds a numeric character, and
/// no word that begins before it does; when there is none, no word of the
/// line holds a numeric character.
pub proof fn law_version_is_the_first_numeric_word(line: Seq<char>)
    ensures
        match first_numeric_word(line, 0) {
            Some(w) => exists|a: int, b: int|
                #![trigger is_word(line, a, b)]
                is_word(line, a, b) && w == line.subrange(a, b) && has_numeric(w) && forall|
                    a2: int,
                    b2: int,
                | #![trigger is_word(line, a2, b2)]
                    is_word(line, a2, b2) && a2 < a ==> !has_numeric(line.subrange(a2, b2)),
            None => forall|a: int, b: int|
                #![trigger is_word(line, a, b)]
                is_word(line, a, b) ==> !has_numeric(line.subrange(a, b)),
        },
{
    lemma_numeric_word_from(line, 0);
}

fn first_line_end(v: &Vec<char>) -> (r: usize)
    ensures
        r <= v.len(),
        forall|k: int| 0 <= k < r ==> v@[k] != '\n',
        r < v.len() ==> v@[r as int] == '\n',
{
    let mut i: usize = 0;
    while i < v.len() && v[i] != '\n'
        invariant
            i <= v.len(),
            forall|k: int| 0 <= k < i ==> v@[k] != '\n',
        decreases v.len() - i,
    {
        i = i + 1;
    }
    i
}

/// The first line of `s`, by the rule of `first_line_spec`.
pub fn first_line(s: &str) -> (r: String)
    ensures
        r@ == first_line_spec(s@),
{
    let v = chars_of(s);
    let i = first_line_end(&v);
    if i == v.len() {
        proof {
            assert(!(exists|k: int| 0 <= k < s@.len() && s@[k] == '\n'));
        }
        return s.to_owned();
    }
    proof {
        let c = choose|k: int|
            0 <= k < s@.len() && s@[k] == '\n' && forall|m: int| 0 <= m < k ==> s@[m] != '\n';
        assert(c == i as int) by {
            if c < i as int {
                assert(v@[c] != '\n');
            }
            if c > i as int {
                assert(s@[i as int] == '\n');
            }
        }
    }
    if i > 0 && v[i - 1] == '\r' {
        slice_string(s, 0, i - 1)
    } else {
        slice_string(s, 0, i)
    }
}

/// The first word of `line[from..]` holding a numeric character, by the
/// rule of `first_numeric_word`.
fn numeric_word(line: &str, v: &Vec<char>) -> (r: Option<String>)
    requires
        v@ == line@,
    ensures
        match r {
            Some(w) => first_numeric_word(line@, 0) == Some(w@),
            None => first_numeric_word(line@, 0) is None,
        },
{
    let n = v.len();
    let mut i: usize = 0;
    while i < n
        invariant
            v@ == line@,
            n == v.len(),
            i <= n,
            first_numeric_word(line@, 0) == first_numeric_word(line@, i as int),
        decreases n - i,
    {
        if is_whitespace(v[i]) {
            i = i + 1;
        } else {
            let mut j = i;
            let mut numeric = false;
            proof {
                lemma_word_end(line@, i as int);
            }
            while j < n && !is_whitespace(v[j])
                invariant
                    v@ == line@,
                    n == v.len(),
                    i <= j <= n,
                    word_end(line@, i as int) == word_end(line@, j as int),
                    numeric == exists|k: int| i <= k < j && unicode_numeric(#[trigger] line@[k]),
                decreases n - j,
            {
                if is_numeric(v[j]) {
                    numeric = true;
                }
                j = j + 1;
            }
            proof {
                assert(word_end(line@, j as int) == j);
                let w = line@.subrange(i as int, j as int);
                if numeric {
                    let k = choose|k: int| i <= k < j && unicode_numeric(#[trigger] line@[k]);
                    assert(w[k - i] == line@[k]);
                }
                if has_numeric(w) {
                    let k = choose|k: int| 0 <= k < w.len() && unicode_numeric(#[trigger] w[k]);
                    assert(w[k] == line@[k + i]);
                }
            }
            if numeric {
                return Some(slice_string(line, i, j));
            }
            i = j;
        }
    }
    None
}

/// The version that `doctor` shows for `bin`, by the rule of
/// `version_spec`.
pub fn version_from_output(bin: &str, stdout: Option<String>) -> (r: String)
    ensures
        r@ == version_spec(
            bin@,
            match stdout {
                Some(o) => Some(o@),
                None => None,
            },
        ),
{
    match stdout {
        None => "missing".to_owned(),
        Some(out) => {
            let line = first_line(out.as_str());
            let v = chars_of(line.as_str());
            let version = match numeric_word(line.as_str(), &v) {
                Some(w) => w,
                None => line,
            };
            let vv = chars_of(version.as_str());
            let starts_v = vv.len() > 0 && vv[0] == 'v';
            if str_eq(bin, "nvim") && !starts_v {
                concat_str("v", version.as_str())
            } else {
                version
            }
        },
    }
}

/// The status of a required tool whose version text is `version`: it fails
/// exactly when the tool is missing.
pub fn tool_status(version: &str) -> (r: Status)
    ensures
        r == if version@ == "missing"@ {
            Status::Error
        } else {
            Status::Good
        },
{
    if str_eq(version, "missing") {
        Status::Error
    } else {
        Status::Good
    }
}

/// The status of fzf, which is optional: a warning when it cannot be run.
pub fn fzf_status(runs: bool) -> (r: Status)
    ensures
        r == if runs {
            Status::Good
        } else {
            Status::Warn
        },
{
    if runs {
        Status::Good
    } else {
        Status::Warn
    }
}

/// The status of the registry: a warning when none is configured, else
/// whether the first one answers.
pub fn registry_status(configured: bool, reachable: bool) -> (r: Status)
    ensures
        r == if !configured {
            Status::Warn
        } else if reachable {
            Status::Good
        } else {
            Status::Error
        },
{
    if !configured {
        Status::Warn
    } else if reachable {
        Status::Good
    } else {
        Status::Error
    }
}

} // verus!
