//! Profile registries: their contents, the check that a downloaded registry
//! must pass, the one-hour cache, the order in which registries are tried,
//! and the resolution of a registry name to a repository URL.
use vstd::prelude::*;
use crate::paths::{join_path, path_join};
use crate::text::{concat_str, contains_char, contains_str, has_char, has_substring, occurs_at, opt_view, str_eq};

verus! {

/// One profile that a registry offers.
pub struct RegistryProfile {
    pub name: String,
    pub repo: String,
    pub profile_type: String,
    pub default: bool,
}

/// A registry: the profiles it offers.
pub struct Registry {
    pub profiles: Vec<RegistryProfile>,
}

/// What the cache records beside a registry: when it was fetched, for how
/// many seconds it stays fresh, and from where.
pub struct RegistryMeta {
    pub fetched_at: u64,
    pub ttl: u64,
    pub url: String,
}

/// The failures of registry handling.
pub enum RegistryError {
    EmptyRegistry,
    InvalidName(String),
    DuplicateName(String),
    InvalidUrl(String),
    /// The request failed; the text is the transport's description.
    RequestFailed(String),
    AllFailed,
    /// A lookup step was reported in a phase that does not wait for it.
    StepOutOfOrder,
}

/// The text of a registry error.
pub open spec fn registry_error_text(e: RegistryError) -> Seq<char> {
    match e {
        RegistryError::EmptyRegistry => "Registry is empty"@,
        RegistryError::InvalidName(s) => "Invalid profile name '"@ + s@ + "'"@,
        RegistryError::DuplicateName(s) => "Duplicate name '"@ + s@ + "'"@,
        RegistryError::InvalidUrl(s) => "Invalid repo URL '"@ + s@ + "'"@,
        RegistryError::RequestFailed(s) => "HTTP request failed: "@ + s@,
        RegistryError::AllFailed => "All registries failed and no cache available"@,
        RegistryError::StepOutOfOrder => "registry lookup step out of order"@,
    }
}

impl RegistryError {
    /// The error's text.
    pub fn message(&self) -> (r: String)
        ensures
            r@ == registry_error_text(*self),
    {
        match self {
            RegistryError::EmptyRegistry => "Registry is empty".to_owned(),
            RegistryError::InvalidName(s) => {
                let a = concat_str("Invalid profile name '", s.as_str());
                concat_str(a.as_str(), "'")
            },
            RegistryError::DuplicateName(s) => {
                let a = concat_str("Duplicate name '", s.as_str());
                concat_str(a.as_str(), "'")
            },
            RegistryError::InvalidUrl(s) => {
                let a = concat_str("Invalid repo URL '", s.as_str());
                concat_str(a.as_str(), "'")
            },
            RegistryError::RequestFailed(s) => concat_str("HTTP request failed: ", s.as_str()),
            RegistryError::AllFailed => "All registries failed and no cache available".to_owned(),
            RegistryError::StepOutOfOrder => "registry lookup step out of order".to_owned(),
        }
    }
}

/// No two profiles of the list share a name.
pub open spec fn names_distinct(profiles: Seq<RegistryProfile>) -> bool {
    forall|i: int, j: int|
        0 <= i < j < profiles.len() ==> #[trigger] profiles[i].name@ != #[trigger] profiles[j].name@
}

/// A registry fit to be used and cached: not empty, and no name twice.
pub open spec fn registry_valid(r: Registry) -> bool {
    r.profiles@.len() > 0 && names_distinct(r.profiles@)
}

/// Why a registry is rejected.
#[derive(Clone, Copy, PartialEq, Eq, Structural, Debug)]
pub enum RegistryIssue {
    Empty,
    Duplicate,
}

/// The text of a rejection.
pub open spec fn issue_text(i: RegistryIssue) -> Seq<char> {
    match i {
        RegistryIssue::Empty => "empty"@,
        RegistryIssue::Duplicate => "duplicate"@,
    }
}

impl RegistryIssue {
    /// The rejection's text.
    pub fn message(&self) -> (r: String)
        ensures
            r@ == issue_text(*self),
    {
        match self {
            RegistryIssue::Empty => "empty".to_owned(),
            RegistryIssue::Duplicate => "duplicate".to_owned(),
        }
    }
}

/// Checks a registry: an empty one is rejected, then one where a name
/// occurs twice.
pub fn validate(registry: &Registry) -> (r: Result<(), RegistryIssue>)
    ensures
        r == if registry.profiles@.len() == 0 {
            Err::<(), RegistryIssue>(RegistryIssue::Empty)
        } else if !names_distinct(registry.profiles@) {
            Err::<(), RegistryIssue>(RegistryIssue::Duplicate)
        } else {
            Ok::<(), RegistryIssue>(())
        },
{
    let ps = &registry.profiles;
    if ps.len() == 0 {
        return Err(RegistryIssue::Empty);
    }
    let mut j: usize = 0;
    while j < ps.len()
        invariant
            ps@ == registry.profiles@,
            j <= ps.len(),
            forall|a: int, b: int| 0 <= a < b < j ==> #[trigger] ps@[a].name@ != #[trigger] ps@[b].name@,
        decreases ps.len() - j,
    {
        let mut i: usize = 0;
        while i < j
            invariant
                ps@ == registry.profiles@,
                i <= j < ps.len(),
                forall|a: int| 0 <= a < i ==> #[trigger] ps@[a].name@ != ps@[j as int].name@,
            decreases j - i,
        {
            if str_eq(ps[i].name.as_str(), ps[j].name.as_str()) {
                proof {
                    let a = i as int;
                    let b = j as int;
                    assert(ps@[a].name@ == ps@[b].name@);
                    assert(0 <= a < b < registry.profiles@.len());
                    assert(!names_distinct(registry.profiles@));
                }
                return Err(RegistryIssue::Duplicate);
            }
            i = i + 1;
        }
        j = j + 1;
    }
    Ok(())
}

/// A downloaded registry, accepted when it passes `validate`; a rejection
/// is reported as an invalid name carrying the rejection's text.
pub fn check_fetched(registry: Registry) -> (r: Result<Registry, RegistryError>)
    ensures
        registry_valid(registry) ==> r == Ok::<Registry, RegistryError>(registry),
        !registry_valid(registry) ==> (r matches Err(RegistryError::InvalidName(t)) && t@
            == issue_text(
            if registry.profiles@.len() == 0 {
                RegistryIssue::Empty
            } else {
                RegistryIssue::Duplicate
            },
        )),
{
    match validate(&registry) {
        Ok(()) => Ok(registry),
        Err(issue) => Err(RegistryError::InvalidName(issue.message())),
    }
}

/// The seconds for which a fetched registry stays fresh.
pub open spec fn cache_ttl() -> u64 {
    3600
}

/// The seconds from `fetched_at` to `now` as `u64` wrapping subtraction
/// counts them (a time before `fetched_at` wraps around).
pub open spec fn cache_age(now: u64, fetched_at: u64) -> int {
    if now >= fetched_at {
        now - fetched_at
    } else {
        now - fetched_at + 0x1_0000_0000_0000_0000int
    }
}

/// A cache is fresh while its age is less than its `ttl`.
pub open spec fn cache_fresh(now: u64, meta: RegistryMeta) -> bool {
    cache_age(now, meta.fetched_at) < meta.ttl
}

/// Whether the cache described by `meta` may still be used at `now`.
pub fn cache_is_fresh(now: u64, meta: &RegistryMeta) -> (r: bool)
    ensures
        r == cache_fresh(now, *meta),
{
    let age = now.wrapping_sub(meta.fetched_at);
    age < meta.ttl
}

/// The record written beside a registry fetched from `url` at `now`: fresh
/// for one hour.
pub fn new_cache_meta(now: u64, url: &str) -> (r: RegistryMeta)
    ensures
        r.fetched_at == now,
        r.ttl == cache_ttl(),
        r.url@ == url@,
{
    RegistryMeta { fetched_at: now, ttl: 3600, url: url.to_owned() }
}

/// The cache expires after one hour: a registry cached at `fetched_at` is
/// used at any later time `now` exactly when fewer than 3600 seconds have
/// passed.
pub proof fn law_cache_lasts_one_hour(fetched_at: u64, now: u64, url: String)
    requires
        fetched_at <= now,
    ensures
        cache_fresh(
            now,
            RegistryMeta { fetched_at, ttl: cache_ttl(), url },
        ) <==> now - fetched_at < 3600,
{
}

/// A repository given in short form: it holds neither `://` nor `@`, so it
/// is neither a URL nor an SSH address.
pub open spec fn is_shorthand(repo: Seq<char>) -> bool {
    !has_substring(repo, "://"@) && !has_char(repo, '@')
}

/// Whether `repo` is in short form (a registry name or `owner/name`).
pub fn is_repo_shorthand(repo: &str) -> (r: bool)
    ensures
        r == is_shorthand(repo@),
{
    !contains_str(repo, "://") && !contains_char(repo, '@')
}

/// The repository of the first profile named `name`.
pub open spec fn first_repo(profiles: Seq<RegistryProfile>, name: Seq<char>) -> Option<Seq<char>>
    decreases profiles.len(),
{
    if profiles.len() == 0 {
        None
    } else if profiles[0].name@ == name {
        Some(profiles[0].repo@)
    } else {
        first_repo(profiles.drop_first(), name)
    }
}

/// Looking a name up finds the first profile so named, wherever it stands:
/// the result is `None` exactly when no profile at any index (the last one
/// included) bears the name, and otherwise the repository of the profile at
/// the least index that bears it.
pub proof fn law_lookup_finds_the_first_match(profiles: Seq<RegistryProfile>, name: Seq<char>)
    ensures
        first_repo(profiles, name) is None <==> forall|k: int|
            0 <= k < profiles.len() ==> #[trigger] profiles[k].name@ != name,
        forall|k: int|
            0 <= k < profiles.len() && #[trigger] profiles[k].name@ == name && (forall|j: int|
                0 <= j < k ==> profiles[j].name@ != name) ==> first_repo(profiles, name) == Some(
                profiles[k].repo@,
            ),
    decreases profiles.len(),
{
    if profiles.len() > 0 {
        let rest = profiles.drop_first();
        law_lookup_finds_the_first_match(rest, name);
        assert forall|k: int| 1 <= k < profiles.len() implies #[trigger] profiles[k] == rest[k - 1] by {}
        if profiles[0].name@ != name {
            assert forall|k: int|
                0 <= k < profiles.len() && #[trigger] profiles[k].name@ == name && (forall|j: int|
                    0 <= j < k ==> profiles[j].name@ != name) implies first_repo(profiles, name)
                == Some(profiles[k].repo@) by {
                assert(rest[k - 1].name@ == name);
                assert forall|j: int| 0 <= j < k - 1 implies rest[j].name@ != name by {
                    assert(rest[j] == profiles[j + 1]);
                }
            }
            if first_repo(profiles, name) is None {
                assert forall|k: int| 0 <= k < profiles.len() implies #[trigger] profiles[k].name@ != name by {
                    if k > 0 {
                        assert(rest[k - 1].name@ != name);
                    }
                }
            } else {
                let k = choose|k: int| 0 <= k < rest.len() && #[trigger] rest[k].name@ == name;
                assert(profiles[k + 1].name@ == name);
            }
        }
    }
}

/// The repository that `registry` gives for the profile `name`: that of the
/// first profile so named.
pub fn find_repo(registry: &Registry, name: &str) -> (r: Option<String>)
    ensures
        opt_view(r) == first_repo(registry.profiles@, name@),
{
    let ps = &registry.profiles;
    let mut i: usize = 0;
    proof {
        assert(ps@.skip(0) =~= ps@);
    }
    while i < ps.len()
        invariant
            ps@ == registry.profiles@,
            i <= ps.len(),
            first_repo(ps@.skip(i as int), name@) == first_repo(ps@, name@),
        decreases ps.len() - i,
    {
        proof {
            assert(ps@.skip(i as int).drop_first() =~= ps@.skip(i + 1));
        }
        if str_eq(ps[i].name.as_str(), name) {
            return Some(ps[i].repo.clone());
        }
        i = i + 1;
    }
    None
}

/// A short-form repository taken as a GitHub repository.
pub open spec fn expand_spec(repo: Seq<char>) -> Seq<char> {
    if is_shorthand(repo) {
        "https://github.com/"@ + repo
    } else {
        repo
    }
}

/// The URL to clone for `input`: a short form is first looked up in
/// `registry` (where one is at hand) by profile name; whatever short form
/// remains is taken as a GitHub repository.
pub open spec fn resolve_repo_spec(input: Seq<char>, registry: Option<Registry>) -> Seq<char> {
    let looked_up = if is_shorthand(input) {
        match registry {
            Some(reg) => match first_repo(reg.profiles@, input) {
                Some(repo) => repo,
                None => input,
            },
            None => input,
        }
    } else {
        input
    };
    expand_spec(looked_up)
}

/// The URL to clone for `input`, by the rule of `resolve_repo_spec`.
pub fn resolve_repo_url(input: &str, registry: Option<&Registry>) -> (r: String)
    ensures
        r@ == resolve_repo_spec(
            input@,
            match registry {
                Some(reg) => Some(*reg),
                None => None,
            },
        ),
{
    let mut url = input.to_owned();
    if is_repo_shorthand(input) {
        match registry {
            Some(reg) => match find_repo(reg, input) {
                Some(repo) => {
                    url = repo;
                },
                None => {},
            },
            None => {},
        }
    }
    if is_repo_shorthand(url.as_str()) {
        concat_str("https://github.com/", url.as_str())
    } else {
        url
    }
}

/// Whether `install` consults the registries for `repo_or_name`: for a
/// short form, when at least one registry is configured.
pub fn install_needs_registry(repo_or_name: &str, registry_count: usize) -> (r: bool)
    ensures
        r == (is_shorthand(repo_or_name@) && registry_count > 0),
{
    is_repo_shorthand(repo_or_name) && registry_count > 0
}

/// Every resolved repository is a URL or an SSH address, never a short
/// form; and an input that is already one is kept as it is.
pub proof fn law_resolved_repo_is_a_url(input: Seq<char>, registry: Option<Registry>)
    ensures
        !is_shorthand(resolve_repo_spec(input, registry)),
        !is_shorthand(input) ==> resolve_repo_spec(input, registry) == input,
{
    reveal_strlit("https://github.com/");
    reveal_strlit("://");
    let x = if is_shorthand(input) {
        match registry {
            Some(reg) => match first_repo(reg.profiles@, input) {
                Some(repo) => repo,
                None => input,
            },
            None => input,
        }
    } else {
        input
    };
    if is_shorthand(x) {
        let full = "https://github.com/"@ + x;
        assert(full.subrange(5, 8) =~= "://"@);
        assert(occurs_at(full, "://"@, 5));
    }
}

/// Where a registry lookup stands.
#[derive(Clone, Copy, PartialEq, Eq, Structural, Debug)]
pub enum FetchPhase {
    /// Waiting to learn whether a fresh cache exists.
    ProbingCache,
    /// Waiting for the cached registry.
    ReadingCache,
    /// Waiting for the answer of the registry at this index.
    Fetching(usize),
    /// Waiting to learn whether an expired cache can stand in.
    LoadingFallback,
    /// Done: the last action was final.
    Finished,
}

/// What the caller is to do next.
pub enum FetchAction {
    /// Where both cache files exist, read and parse the cache's metadata and
    /// report it with the current time (`on_cache_meta`); otherwise report
    /// that there is none.
    ProbeCache,
    /// Read and parse the cached registry and report it (`on_cached_data`).
    ReadCachedData,
    /// Download the registry from this URL and report the outcome
    /// (`on_fetched`).
    Fetch(String),
    /// Final: write this registry to the cache with the metadata of this
    /// URL, and answer with it.
    SaveAndReturn(Registry, String),
    /// Final: answer with this registry.
    Return(Registry),
    /// Where the cached registry file exists, read and parse it and answer
    /// with it (a failure there is the answer); otherwise report its absence
    /// (`on_fallback_missing`).
    LoadFallback,
    /// Final: fail with this error.
    Fail(RegistryError),
}

/// A registry lookup in progress, over the configured registry URLs.
pub struct FetchSession {
    pub urls: Vec<String>,
    pub phase: FetchPhase,
}

/// Where the lookup goes once the cache is of no use: the first registry,
/// or the fallback when there is none.
pub open spec fn begin_network_spec(urls: Seq<String>) -> (FetchPhase, FetchAction) {
    if urls.len() > 0 {
        (FetchPhase::Fetching(0), FetchAction::Fetch(urls[0]))
    } else {
        (FetchPhase::LoadingFallback, FetchAction::LoadFallback)
    }
}

/// Where a step taken in a phase that does not wait for it leads: the end,
/// with an error.
pub open spec fn out_of_order() -> (FetchPhase, FetchAction) {
    (FetchPhase::Finished, FetchAction::Fail(RegistryError::StepOutOfOrder))
}

/// The first phase and action of a lookup over `urls`: the cache is probed
/// unless `force_update` bypasses it.
pub open spec fn start_spec(urls: Seq<String>, force_update: bool) -> (FetchPhase, FetchAction) {
    if force_update {
        begin_network_spec(urls)
    } else {
        (FetchPhase::ProbingCache, FetchAction::ProbeCache)
    }
}

/// Whether the cache's metadata, read at `now`, shows a fresh cache.
pub open spec fn meta_fresh(meta: Option<RegistryMeta>, now: u64) -> bool {
    meta matches Some(m) && cache_fresh(now, m)
}

/// The step after the cache's metadata was read: a fresh cache is read,
/// otherwise the registries are tried.
pub open spec fn cache_meta_spec(phase: FetchPhase, urls: Seq<String>, meta: Option<RegistryMeta>, now: u64) -> (FetchPhase, FetchAction) {
    if phase != FetchPhase::ProbingCache {
        out_of_order()
    } else if meta_fresh(meta, now) {
        (FetchPhase::ReadingCache, FetchAction::ReadCachedData)
    } else {
        begin_network_spec(urls)
    }
}

/// The step after the cached registry was read: it is the answer, as it
/// is; where it could not be read, the registries are tried.
pub open spec fn cached_data_spec(phase: FetchPhase, urls: Seq<String>, data: Option<Registry>) -> (FetchPhase, FetchAction) {
    if phase != FetchPhase::ReadingCache {
        out_of_order()
    } else {
        match data {
            Some(reg) => (FetchPhase::Finished, FetchAction::Return(reg)),
            None => begin_network_spec(urls),
        }
    }
}

/// Whether a registry's answer is accepted: it arrived and passes
/// validation.
pub open spec fn answer_accepted(result: Result<Registry, RegistryError>) -> bool {
    result is Ok && registry_valid(result->Ok_0)
}

/// The step after the registry being fetched answered with `result`: an
/// accepted registry is saved and is the answer; otherwise the next URL is
/// tried, and after the last one the fallback.
pub open spec fn fetched_spec(phase: FetchPhase, urls: Seq<String>, result: Result<Registry, RegistryError>) -> (FetchPhase, FetchAction) {
    match phase {
        FetchPhase::Fetching(i) => if i >= urls.len() {
            out_of_order()
        } else if answer_accepted(result) {
            (FetchPhase::Finished, FetchAction::SaveAndReturn(result->Ok_0, urls[i as int]))
        } else if i + 1 < urls.len() {
            (FetchPhase::Fetching((i + 1) as usize), FetchAction::Fetch(urls[i + 1]))
        } else {
            (FetchPhase::LoadingFallback, FetchAction::LoadFallback)
        },
        _ => out_of_order(),
    }
}

/// The step after the fallback found no cached registry: every source
/// failed.
pub open spec fn fallback_missing_spec(phase: FetchPhase) -> (FetchPhase, FetchAction) {
    if phase != FetchPhase::LoadingFallback {
        out_of_order()
    } else {
        (FetchPhase::Finished, FetchAction::Fail(RegistryError::AllFailed))
    }
}

impl FetchSession {
    /// The session is consistent: a fetch in progress is that of a
    /// configured URL.
    pub open spec fn wf(&self) -> bool {
        self.phase matches FetchPhase::Fetching(i) ==> i < self.urls@.len()
    }

    fn out_of_order(self) -> (r: (FetchSession, FetchAction))
        ensures
            r.0.urls == self.urls,
            (r.0.phase, r.1) == out_of_order(),
    {
        (FetchSession { urls: self.urls, phase: FetchPhase::Finished }, FetchAction::Fail(RegistryError::StepOutOfOrder))
    }

    /// Moves on to the first registry, or to the fallback when there is none.
    fn begin_network(self) -> (r: (FetchSession, FetchAction))
        ensures
            r.0.urls == self.urls,
            r.0.wf(),
            (r.0.phase, r.1) == begin_network_spec(self.urls@),
    {
        if self.urls.len() > 0 {
            let u = self.urls[0].clone();
            (FetchSession { urls: self.urls, phase: FetchPhase::Fetching(0) }, FetchAction::Fetch(u))
        } else {
            (FetchSession { urls: self.urls, phase: FetchPhase::LoadingFallback }, FetchAction::LoadFallback)
        }
    }

    /// Starts a lookup over `urls`. Unless `force_update` asks to bypass it,
    /// the cache is consulted first; otherwise the registries are tried.
    pub fn start(urls: Vec<String>, force_update: bool) -> (r: (FetchSession, FetchAction))
        ensures
            r.0.urls == urls,
            r.0.wf(),
            (r.0.phase, r.1) == start_spec(urls@, force_update),
    {
        let s = FetchSession { urls, phase: FetchPhase::ProbingCache };
        if force_update {
            s.begin_network()
        } else {
            (s, FetchAction::ProbeCache)
        }
    }

    /// The cache's metadata has been read (`None`: no cache, or unreadable
    /// metadata) at time `now`: a fresh cache is read, otherwise the
    /// registries are tried. Out of its phase, the lookup ends in an error.
    pub fn on_cache_meta(self, meta: Option<RegistryMeta>, now: u64) -> (r: (FetchSession, FetchAction))
        ensures
            r.0.urls == self.urls,
            r.0.wf(),
            (r.0.phase, r.1) == cache_meta_spec(self.phase, self.urls@, meta, now),
    {
        if self.phase != FetchPhase::ProbingCache {
            return self.out_of_order();
        }
        let fresh = match &meta {
            Some(m) => cache_is_fresh(now, m),
            None => false,
        };
        if fresh {
            (FetchSession { urls: self.urls, phase: FetchPhase::ReadingCache }, FetchAction::ReadCachedData)
        } else {
            self.begin_network()
        }
    }

    /// The cached registry has been read (`None`: unreadable): a cached
    /// registry is the answer, as it is; otherwise the registries are tried.
    /// Out of its phase, the lookup ends in an error.
    pub fn on_cached_data(self, data: Option<Registry>) -> (r: (FetchSession, FetchAction))
        ensures
            r.0.urls == self.urls,
            r.0.wf(),
            (r.0.phase, r.1) == cached_data_spec(self.phase, self.urls@, data),
    {
        if self.phase != FetchPhase::ReadingCache {
            return self.out_of_order();
        }
        match data {
            Some(reg) => (FetchSession { urls: self.urls, phase: FetchPhase::Finished }, FetchAction::Return(reg)),
            None => self.begin_network(),
        }
    }

    /// The registry at the current index answered with `result`. A registry
    /// that passes `validate` is cached and is the answer; any failure moves
    /// on to the next URL, and after the last one to the fallback. Out of
    /// its phase, the lookup ends in an error.
    pub fn on_fetched(self, result: Result<Registry, RegistryError>) -> (r: (FetchSession, FetchAction))
        ensures
            r.0.urls == self.urls,
            r.0.wf(),
            (r.0.phase, r.1) == fetched_spec(self.phase, self.urls@, result),
    {
        let i = match self.phase {
            FetchPhase::Fetching(i) => i,
            _ => {
                return self.out_of_order();
            },
        };
        if i >= self.urls.len() {
            return self.out_of_order();
        }
        let checked = match result {
            Ok(reg) => check_fetched(reg),
            Err(e) => Err(e),
        };
        match checked {
            Ok(reg) => {
                let u = self.urls[i].clone();
                (FetchSession { urls: self.urls, phase: FetchPhase::Finished }, FetchAction::SaveAndReturn(reg, u))
            },
            Err(_) => {
                if i < self.urls.len() - 1 {
                    let u = self.urls[i + 1].clone();
                    (FetchSession { urls: self.urls, phase: FetchPhase::Fetching(i + 1) }, FetchAction::Fetch(u))
                } else {
                    (FetchSession { urls: self.urls, phase: FetchPhase::LoadingFallback }, FetchAction::LoadFallback)
                }
            },
        }
    }

    /// No cached registry exists to fall back on: every registry failed.
    /// Out of its phase, the lookup ends in an error.
    pub fn on_fallback_missing(self) -> (r: (FetchSession, FetchAction))
        ensures
            r.0.urls == self.urls,
            r.0.wf(),
            (r.0.phase, r.1) == fallback_missing_spec(self.phase),
    {
        if self.phase != FetchPhase::LoadingFallback {
            return self.out_of_order();
        }
        (FetchSession { urls: self.urls, phase: FetchPhase::Finished }, FetchAction::Fail(RegistryError::AllFailed))
    }
}

/// What fetching from the registry at index `i` onwards comes to, when the
/// registries answer `answers` in order: the first accepted answer, saved
/// with its URL; after the last failure, the fallback.
pub open spec fn after_network(urls: Seq<String>, answers: Seq<Result<Registry, RegistryError>>, i: nat) -> FetchAction
    decreases urls.len() - i,
{
    if i >= urls.len() {
        FetchAction::LoadFallback
    } else if answer_accepted(answers[i as int]) {
        FetchAction::SaveAndReturn(answers[i as int]->Ok_0, urls[i as int])
    } else {
        after_network(urls, answers, i + 1)
    }
}

/// Runs the lookup's steps from `phase` and `action` for at most `fuel`
/// steps, the caller reporting the cache metadata `meta` read at `now`, the
/// cached registry `cached`, and the answer `answers[i]` of the registry at
/// each index `i`. The result is the first action that asks for none of
/// these reports.
pub open spec fn run_steps(
    urls: Seq<String>,
    phase: FetchPhase,
    action: FetchAction,
    meta: Option<RegistryMeta>,
    now: u64,
    cached: Option<Registry>,
    answers: Seq<Result<Registry, RegistryError>>,
    fuel: nat,
) -> FetchAction
    decreases fuel,
{
    if fuel == 0 {
        action
    } else {
        match action {
            FetchAction::ProbeCache => {
                let next = cache_meta_spec(phase, urls, meta, now);
                run_steps(urls, next.0, next.1, meta, now, cached, answers, (fuel - 1) as nat)
            },
            FetchAction::ReadCachedData => {
                let next = cached_data_spec(phase, urls, cached);
                run_steps(urls, next.0, next.1, meta, now, cached, answers, (fuel - 1) as nat)
            },
            FetchAction::Fetch(_) => match phase {
                FetchPhase::Fetching(i) => {
                    let next = fetched_spec(phase, urls, answers[i as int]);
                    run_steps(urls, next.0, next.1, meta, now, cached, answers, (fuel - 1) as nat)
                },
                _ => action,
            },
            _ => action,
        }
    }
}

/// What a whole lookup comes to: its steps from `start`, enough of them for
/// every registry to be tried.
pub open spec fn lookup_outcome(
    urls: Seq<String>,
    force_update: bool,
    meta: Option<RegistryMeta>,
    now: u64,
    cached: Option<Registry>,
    answers: Seq<Result<Registry, RegistryError>>,
) -> FetchAction {
    let first = start_spec(urls, force_update);
    run_steps(urls, first.0, first.1, meta, now, cached, answers, urls.len() + 3)
}

proof fn lemma_fetching_runs_to_after_network(
    urls: Seq<String>,
    i: nat,
    meta: Option<RegistryMeta>,
    now: u64,
    cached: Option<Registry>,
    answers: Seq<Result<Registry, RegistryError>>,
    fuel: nat,
)
    requires
        i < urls.len() <= usize::MAX,
        answers.len() == urls.len(),
        fuel >= urls.len() - i + 1,
    ensures
        run_steps(urls, FetchPhase::Fetching(i as usize), FetchAction::Fetch(urls[i as int]), meta, now, cached, answers, fuel)
            == after_network(urls, answers, i),
    decreases urls.len() - i,
{
    let phase = FetchPhase::Fetching(i as usize);
    assert((i as usize) as int == i);
    let next = fetched_spec(phase, urls, answers[i as int]);
    assert(run_steps(urls, phase, FetchAction::Fetch(urls[i as int]), meta, now, cached, answers, fuel)
        == run_steps(urls, next.0, next.1, meta, now, cached, answers, (fuel - 1) as nat));
    if answer_accepted(answers[i as int]) {
        assert(run_steps(urls, next.0, next.1, meta, now, cached, answers, (fuel - 1) as nat) == next.1);
        assert(next.1 == after_network(urls, answers, i));
    } else if i + 1 < urls.len() {
        let j: nat = (i + 1) as nat;
        assert(next.0 == FetchPhase::Fetching(j as usize));
        assert(next.1 == FetchAction::Fetch(urls[j as int]));
        lemma_fetching_runs_to_after_network(urls, j, meta, now, cached, answers, (fuel - 1) as nat);
        assert(after_network(urls, answers, i) == after_network(urls, answers, j));
    } else {
        assert(after_network(urls, answers, (i + 1) as nat) == FetchAction::LoadFallback);
        assert(next.1 == FetchAction::LoadFallback);
        assert(run_steps(urls, next.0, next.1, meta, now, cached, answers, (fuel - 1) as nat) == next.1);
    }
}

proof fn lemma_network_runs_to_after_network(
    urls: Seq<String>,
    meta: Option<RegistryMeta>,
    now: u64,
    cached: Option<Registry>,
    answers: Seq<Result<Registry, RegistryError>>,
    fuel: nat,
)
    requires
        answers.len() == urls.len(),
        urls.len() <= usize::MAX,
        fuel >= urls.len() + 1,
    ensures
        run_steps(urls, begin_network_spec(urls).0, begin_network_spec(urls).1, meta, now, cached, answers, fuel)
            == after_network(urls, answers, 0),
{
    if urls.len() > 0 {
        lemma_fetching_runs_to_after_network(urls, 0, meta, now, cached, answers, fuel);
    }
}

/// The order of a registry lookup, across its steps. Unless an update is
/// forced, a fresh cache that can be read is the answer and no registry is
/// asked. Otherwise (forced, no fresh cache, or an unreadable one) the
/// registries are asked in their configured order and the first accepted
/// answer is saved with its URL and returned; when every one fails, the
/// cached registry is the fallback.
pub proof fn law_lookup_order(
    urls: Seq<String>,
    force_update: bool,
    meta: Option<RegistryMeta>,
    now: u64,
    cached: Option<Registry>,
    answers: Seq<Result<Registry, RegistryError>>,
)
    requires
        answers.len() == urls.len(),
        urls.len() <= usize::MAX,
    ensures
        !force_update && meta_fresh(meta, now) && cached is Some ==> lookup_outcome(
            urls,
            force_update,
            meta,
            now,
            cached,
            answers,
        ) == FetchAction::Return(cached->0),
        force_update || !meta_fresh(meta, now) || cached is None ==> lookup_outcome(
            urls,
            force_update,
            meta,
            now,
            cached,
            answers,
        ) == after_network(urls, answers, 0),
{
    let fuel = urls.len() + 3;
    if force_update {
        lemma_network_runs_to_after_network(urls, meta, now, cached, answers, fuel);
    } else {
        let n1 = cache_meta_spec(FetchPhase::ProbingCache, urls, meta, now);
        assert(lookup_outcome(urls, force_update, meta, now, cached, answers) == run_steps(
            urls, n1.0, n1.1, meta, now, cached, answers, (fuel - 1) as nat));
        if meta_fresh(meta, now) {
            let n2 = cached_data_spec(n1.0, urls, cached);
            assert(run_steps(urls, n1.0, n1.1, meta, now, cached, answers, (fuel - 1) as nat) == run_steps(
                urls, n2.0, n2.1, meta, now, cached, answers, (fuel - 2) as nat));
            match cached {
                Some(reg) => {
                    assert(run_steps(urls, n2.0, n2.1, meta, now, cached, answers, (fuel - 2) as nat) == n2.1);
                },
                None => {
                    lemma_network_runs_to_after_network(urls, meta, now, cached, answers, (fuel - 2) as nat);
                },
            }
        } else {
            lemma_network_runs_to_after_network(urls, meta, now, cached, answers, (fuel - 1) as nat);
        }
    }
}

/// The files of the registry cache under the cache root `cache_root`: the
/// cache directory, the registry, and its metadata.
pub struct CachePaths {
    pub dir: String,
    pub data: String,
    pub meta: String,
}

/// Where the registry cache lives: `registry/` under the cache root, with
/// `data.json` and `meta.json` in it.
pub fn registry_cache_paths(cache_root: &str) -> (r: CachePaths)
    ensures
        r.dir@ == path_join(cache_root@, "registry"@),
        r.data@ == path_join(r.dir@, "data.json"@),
        r.meta@ == path_join(r.dir@, "meta.json"@),
{
    let dir = join_path(cache_root, "registry");
    let data = join_path(dir.as_str(), "data.json");
    let meta = join_path(dir.as_str(), "meta.json");
    CachePaths { dir, data, meta }
}

} // verus!
