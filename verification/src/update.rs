//! Self-update decisions: whether Homebrew manages the binary, whether the
//! latest release is newer, which build fits the platform, and which asset
//! of the release carries it.
use vstd::prelude::*;
use crate::text::{chars_of, concat_str, contains_str, has_substring, slice_string, str_eq};

verus! {

/// Whether the binary at `path` was installed by Homebrew: its path
/// mentions `Cellar` or `homebrew`.
pub open spec fn is_brew_path_spec(path: Seq<char>) -> bool {
    has_substring(path, "Cellar"@) || has_substring(path, "homebrew"@)
}

/// Whether the executable at `exe_path` is managed by Homebrew.
pub fn is_brew_install(exe_path: &str) -> (r: bool)
    ensures
        r == is_brew_path_spec(exe_path@),
{
    contains_str(exe_path, "Cellar") || contains_str(exe_path, "homebrew")
}

/// Whether `text` is a semantic version that `semver::Version::parse`
/// accepts. A function of the text alone.
pub uninterp spec fn semver_valid(text: Seq<char>) -> bool;

/// The message of the error that `semver::Version::parse` gives for `text`
/// (its `Display`). A function of the text alone.
pub uninterp spec fn semver_error_text(text: Seq<char>) -> Seq<char>;

/// Calls `semver::Version::parse` on `text`: `None` where it succeeds, else
/// the error's message. Whether it succeeds is named `semver_valid`, and the
/// message `semver_error_text`; of which texts parse, only that `0.0.0`
/// does (the version `semver::Version::new(0, 0, 0)` displays as) is
/// stated.
#[verifier::external_body]
fn semver_parse_error(text: &str) -> (r: Option<String>)
    ensures
        r is None <==> semver_valid(text@),
        r matches Some(m) ==> m@ == semver_error_text(text@),
        text@ == "0.0.0"@ ==> r is None,
{
    match semver::Version::parse(text) {
        Ok(_) => None,
        Err(e) => Some(e.to_string()),
    }
}

/// Whether the version `a` precedes or equals the version `b` in the order
/// of `semver::Version`. A function of the two texts.
pub uninterp spec fn semver_le(a: Seq<char>, b: Seq<char>) -> bool;

/// Parses both texts with `semver::Version::parse` and compares them with
/// `<=`; the result is named `semver_le`. Both must parse, else the calls
/// would panic.
#[verifier::external_body]
fn version_le(a: &str, b: &str) -> (r: bool)
    requires
        semver_valid(a@),
        semver_valid(b@),
    ensures
        r == semver_le(a@, b@),
{
    semver::Version::parse(a).unwrap() <= semver::Version::parse(b).unwrap()
}

/// The version a release is compared as: its version text where that
/// parses, else `0.0.0`.
pub open spec fn compared_version(latest: Seq<char>) -> Seq<char> {
    if semver_valid(latest) {
        latest
    } else {
        "0.0.0"@
    }
}

/// `s` without every leading `v` (as `str::trim_start_matches('v')`).
pub open spec fn strip_leading_v(s: Seq<char>) -> Seq<char>
    decreases s.len(),
{
    if s.len() > 0 && s[0] == 'v' {
        strip_leading_v(s.drop_first())
    } else {
        s
    }
}

/// The version text of a release tag: the tag without its leading `v`s.
pub fn tag_version(tag: &str) -> (r: String)
    ensures
        r@ == strip_leading_v(tag@),
{
    let v = chars_of(tag);
    let mut i: usize = 0;
    proof {
        assert(tag@.skip(0) =~= tag@);
    }
    while i < v.len() && v[i] == 'v'
        invariant
            v@ == tag@,
            i <= v.len(),
            strip_leading_v(tag@) == strip_leading_v(tag@.skip(i as int)),
        decreases v.len() - i,
    {
        proof {
            assert(tag@.skip(i as int).drop_first() =~= tag@.skip(i + 1));
        }
        i = i + 1;
    }
    let r = slice_string(tag, i, v.len());
    proof {
        assert(r@ =~= tag@.skip(i as int));
    }
    r
}

/// The build name for a platform: macOS on ARM or x86-64, Linux on x86-64.
pub open spec fn release_target_spec(os: Seq<char>, arch: Seq<char>) -> Option<Seq<char>> {
    if os == "macos"@ && arch == "aarch64"@ {
        Some("macos-arm64"@)
    } else if os == "macos"@ && arch == "x86_64"@ {
        Some("macos-x86_64"@)
    } else if os == "linux"@ && arch == "x86_64"@ {
        Some("linux-x86_64"@)
    } else {
        None
    }
}

/// The build name for the platform `os`-`arch`, where one is published.
pub fn release_target(os: &str, arch: &str) -> (r: Option<&'static str>)
    ensures
        match r {
            Some(t) => release_target_spec(os@, arch@) == Some(t@),
            None => release_target_spec(os@, arch@) is None,
        },
{
    if str_eq(os, "macos") && str_eq(arch, "aarch64") {
        Some("macos-arm64")
    } else if str_eq(os, "macos") && str_eq(arch, "x86_64") {
        Some("macos-x86_64")
    } else if str_eq(os, "linux") && str_eq(arch, "x86_64") {
        Some("linux-x86_64")
    } else {
        None
    }
}

/// One downloadable file of a release.
pub struct Asset {
    pub name: String,
    pub browser_download_url: String,
}

/// A release: its tag and its files.
pub struct Release {
    pub tag_name: String,
    pub assets: Vec<Asset>,
}

/// Why an update cannot go ahead.
pub enum UpdateError {
    /// A version that must be a semantic version is not; the parser's
    /// message.
    InvalidVersion(String),
    /// No build is published for this platform.
    UnsupportedPlatform(String, String),
    /// The release lacks the build for this platform.
    MissingAsset(String),
}

/// The text of an update error.
pub open spec fn update_error_text(e: UpdateError) -> Seq<char> {
    match e {
        UpdateError::InvalidVersion(m) => m@,
        UpdateError::UnsupportedPlatform(os, arch) => "unsupported platform for auto-update: "@
            + os@ + "-"@ + arch@,
        UpdateError::MissingAsset(n) => "could not find binary '"@ + n@
            + "' in the latest release"@,
    }
}

impl UpdateError {
    /// The error's text.
    pub fn message(&self) -> (r: String)
        ensures
            r@ == update_error_text(*self),
    {
        match self {
            UpdateError::InvalidVersion(m) => m.clone(),
            UpdateError::UnsupportedPlatform(os, arch) => {
                let a = concat_str("unsupported platform for auto-update: ", os.as_str());
                let b = concat_str(a.as_str(), "-");
                concat_str(b.as_str(), arch.as_str())
            },
            UpdateError::MissingAsset(n) => {
                let a = concat_str("could not find binary '", n.as_str());
                concat_str(a.as_str(), "' in the latest release")
            },
        }
    }
}

/// Checks, before anything is downloaded, that the running version
/// `current` is a semantic version; the error carries the parser's message.
pub fn check_current_version(current: &str) -> (r: Result<(), UpdateError>)
    ensures
        semver_valid(current@) <==> r is Ok,
        r matches Err(UpdateError::InvalidVersion(m)) ==> m@ == semver_error_text(current@),
        r !is Err || r matches Err(UpdateError::InvalidVersion(_)),
{
    match semver_parse_error(current) {
        None => Ok(()),
        Some(m) => Err(UpdateError::InvalidVersion(m)),
    }
}

/// The index of the first asset named `name`.
pub open spec fn first_asset(assets: Seq<Asset>, name: Seq<char>) -> Option<int>
    decreases assets.len(),
{
    if assets.len() == 0 {
        None
    } else if assets[0].name@ == name {
        Some(0)
    } else {
        match first_asset(assets.drop_first(), name) {
            Some(i) => Some(i + 1),
            None => None,
        }
    }
}

proof fn lemma_first_asset_skip(assets: Seq<Asset>, name: Seq<char>, i: int)
    requires
        0 <= i < assets.len(),
        assets[i].name@ != name,
    ensures
        first_asset(assets.skip(i), name) == match first_asset(assets.skip(i + 1), name) {
            Some(k) => Some(k + 1),
            None => None::<int>,
        },
{
    assert(assets.skip(i).drop_first() =~= assets.skip(i + 1));
}

/// The index of the asset named `name` in `assets`: the first such.
pub fn find_asset(assets: &Vec<Asset>, name: &str) -> (r: Option<usize>)
    ensures
        match r {
            Some(i) => first_asset(assets@, name@) == Some(i as int),
            None => first_asset(assets@, name@) is None,
        },
{
    let mut i: usize = 0;
    proof {
        assert(assets@.skip(0) =~= assets@);
    }
    while i < assets.len()
        invariant
            i <= assets.len(),
            first_asset(assets@, name@) == match first_asset(assets@.skip(i as int), name@) {
                Some(k) => Some(k + i),
                None => None::<int>,
            },
        decreases assets.len() - i,
    {
        if str_eq(assets[i].name.as_str(), name) {
            proof {
                assert(assets@.skip(i as int)[0] == assets@[i as int]);
            }
            return Some(i);
        }
        proof {
            lemma_first_asset_skip(assets@, name@, i as int);
        }
        i = i + 1;
    }
    proof {
        assert(assets@.skip(i as int).len() == 0);
    }
    None
}

/// What a self-update does once the latest release is known.
pub enum UpdateDecision {
    /// The running version is the latest or newer.
    UpToDate,
    /// Download the asset at this index, which holds this version.
    Download(usize, String),
}

/// The decision for the running version `current`, the latest `release`
/// and the platform `os`-`arch`. The release's version is its tag without
/// leading `v`s, compared as `0.0.0` where it does not parse. Up to date
/// when that is not newer than `current`; otherwise the platform's build
/// `nvimx-<target>` of the release is downloaded.
pub fn decide_update(current: &str, release: &Release, os: &str, arch: &str) -> (r: Result<UpdateDecision, UpdateError>)
    ensures
        !semver_valid(current@) ==> (r matches Err(UpdateError::InvalidVersion(m)) && m@ == semver_error_text(current@)),
        semver_valid(current@) ==> {
            let latest = strip_leading_v(release.tag_name@);
            let cmp = compared_version(latest);
            if semver_le(cmp, current@) {
                r matches Ok(UpdateDecision::UpToDate)
            } else {
                match release_target_spec(os@, arch@) {
                    None => r matches Err(UpdateError::UnsupportedPlatform(o, a)) && o@ == os@ && a@ == arch@,
                    Some(t) => match first_asset(release.assets@, "nvimx-"@ + t) {
                        None => r matches Err(UpdateError::MissingAsset(n)) && n@ == "nvimx-"@ + t,
                        Some(i) => r matches Ok(UpdateDecision::Download(k, v)) && k == i && v@ == latest,
                    },
                }
            }
        },
{
    if let Some(m) = semver_parse_error(current) {
        return Err(UpdateError::InvalidVersion(m));
    }
    let latest = tag_version(release.tag_name.as_str());
    let not_newer = match semver_parse_error(latest.as_str()) {
        None => version_le(latest.as_str(), current),
        Some(_) => {
            let zero = "0.0.0";
            proof {
                reveal_strlit("0.0.0");
            }
            // `0.0.0` parses, which is what `version_le` asks of it.
            let zero_check = semver_parse_error(zero);
            proof {
                assert(zero_check is None);
            }
            version_le(zero, current)
        },
    };
    if not_newer {
        return Ok(UpdateDecision::UpToDate);
    }
    match release_target(os, arch) {
        None => Err(UpdateError::UnsupportedPlatform(os.to_owned(), arch.to_owned())),
        Some(t) => {
            let name = concat_str("nvimx-", t);
            match find_asset(&release.assets, name.as_str()) {
                None => Err(UpdateError::MissingAsset(name)),
                Some(i) => Ok(UpdateDecision::Download(i, latest)),
            }
        },
    }
}

} // verus!
