use nvimx::registry::{
    cache_is_fresh, check_fetched, find_repo, install_needs_registry, is_repo_shorthand,
    new_cache_meta, registry_cache_paths, resolve_repo_url, validate, FetchAction, FetchPhase,
    FetchSession, Registry, RegistryError, RegistryIssue, RegistryMeta, RegistryProfile,
};

fn s(x: &str) -> String {
    x.to_string()
}

fn profile(name: &str, repo: &str) -> RegistryProfile {
    RegistryProfile { name: s(name), repo: s(repo), profile_type: s("distro"), default: false }
}

fn registry(ps: &[(&str, &str)]) -> Registry {
    Registry { profiles: ps.iter().map(|(n, r)| profile(n, r)).collect() }
}

#[test]
fn validation_rejects_empty_and_duplicate_registries() {
    assert_eq!(validate(&registry(&[])), Err(RegistryIssue::Empty));
    assert_eq!(validate(&registry(&[("a", "x"), ("b", "y"), ("a", "z")])), Err(RegistryIssue::Duplicate));
    assert_eq!(validate(&registry(&[("a", "x"), ("b", "x")])), Ok(()));
    assert_eq!(RegistryIssue::Empty.message(), "empty");
    assert_eq!(RegistryIssue::Duplicate.message(), "duplicate");
}

#[test]
fn a_fetched_registry_must_validate() {
    match check_fetched(registry(&[("a", "x"), ("a", "y")])) {
        Err(e) => assert_eq!(e.message(), "Invalid profile name 'duplicate'"),
        Ok(_) => panic!("duplicates must be rejected"),
    }
    match check_fetched(registry(&[])) {
        Err(e) => assert_eq!(e.message(), "Invalid profile name 'empty'"),
        Ok(_) => panic!("an empty registry must be rejected"),
    }
    assert!(check_fetched(registry(&[("a", "x")])).is_ok());
}

#[test]
fn error_messages() {
    assert_eq!(RegistryError::EmptyRegistry.message(), "Registry is empty");
    assert_eq!(RegistryError::DuplicateName(s("n")).message(), "Duplicate name 'n'");
    assert_eq!(RegistryError::InvalidUrl(s("u")).message(), "Invalid repo URL 'u'");
    assert_eq!(RegistryError::RequestFailed(s("timeout")).message(), "HTTP request failed: timeout");
    assert_eq!(RegistryError::AllFailed.message(), "All registries failed and no cache available");
}

#[test]
fn the_cache_lasts_one_hour() {
    let meta = new_cache_meta(1_000, "https://r");
    assert_eq!(meta.ttl, 3600);
    assert_eq!(meta.fetched_at, 1_000);
    assert_eq!(meta.url, "https://r");
    assert!(cache_is_fresh(1_000, &meta));
    assert!(cache_is_fresh(4_599, &meta));
    assert!(!cache_is_fresh(4_600, &meta));
    // A record from the future wraps around and is stale.
    assert!(!cache_is_fresh(999, &meta));
    let odd = RegistryMeta { fetched_at: u64::MAX, ttl: 10, url: s("") };
    assert!(cache_is_fresh(5, &odd));
}

#[test]
fn repositories_resolve_through_the_registry() {
    let reg = registry(&[("lazyvim", "https://github.com/LazyVim/starter"), ("kick", "nvim-lua/kickstart.nvim"), ("lazyvim", "other")]);
    assert_eq!(find_repo(&reg, "lazyvim"), Some(s("https://github.com/LazyVim/starter")));
    assert_eq!(find_repo(&reg, "none"), None);
    assert_eq!(resolve_repo_url("lazyvim", Some(&reg)), "https://github.com/LazyVim/starter");
    assert_eq!(resolve_repo_url("kick", Some(&reg)), "https://github.com/nvim-lua/kickstart.nvim");
    assert_eq!(resolve_repo_url("user/repo", Some(&reg)), "https://github.com/user/repo");
    assert_eq!(resolve_repo_url("lazyvim", None), "https://github.com/lazyvim");
    assert_eq!(resolve_repo_url("git@github.com:a/b.git", Some(&reg)), "git@github.com:a/b.git");
    assert_eq!(resolve_repo_url("https://x.org/y", None), "https://x.org/y");
    assert!(is_repo_shorthand("a/b"));
    assert!(!is_repo_shorthand("file://x"));
    assert!(install_needs_registry("lazyvim", 1));
    assert!(!install_needs_registry("lazyvim", 0));
    assert!(!install_needs_registry("git@h:x", 2));
}

#[test]
fn cache_paths() {
    let p = registry_cache_paths("/h/.cache/nvim");
    assert_eq!(p.dir, "/h/.cache/nvim/registry");
    assert_eq!(p.data, "/h/.cache/nvim/registry/data.json");
    assert_eq!(p.meta, "/h/.cache/nvim/registry/meta.json");
}

fn urls() -> Vec<String> {
    vec![s("https://one"), s("https://two")]
}

#[test]
fn a_fresh_cache_answers_without_the_network() {
    let (sess, act) = FetchSession::start(urls(), false);
    assert!(matches!(act, FetchAction::ProbeCache));
    let meta = new_cache_meta(100, "https://one");
    let (sess, act) = sess.on_cache_meta(Some(meta), 200);
    assert!(matches!(act, FetchAction::ReadCachedData));
    let (sess, act) = sess.on_cached_data(Some(registry(&[("a", "b")])));
    assert_eq!(sess.phase, FetchPhase::Finished);
    match act {
        FetchAction::Return(r) => assert_eq!(r.profiles[0].name, "a"),
        _ => panic!("expected the cached registry"),
    }
}

#[test]
fn registries_are_tried_in_order_then_the_fallback() {
    let (sess, _) = FetchSession::start(urls(), false);
    let (sess, act) = sess.on_cache_meta(None, 0);
    match act {
        FetchAction::Fetch(u) => assert_eq!(u, "https://one"),
        _ => panic!("expected the first registry"),
    }
    let (sess, act) = sess.on_fetched(Err(RegistryError::RequestFailed(s("down"))));
    match act {
        FetchAction::Fetch(u) => assert_eq!(u, "https://two"),
        _ => panic!("expected the second registry"),
    }
    let (sess, act) = sess.on_fetched(Ok(registry(&[])));
    assert!(matches!(act, FetchAction::LoadFallback));
    let (sess, act) = sess.on_fallback_missing();
    assert_eq!(sess.phase, FetchPhase::Finished);
    match act {
        FetchAction::Fail(e) => assert_eq!(e.message(), "All registries failed and no cache available"),
        _ => panic!("expected failure"),
    }
}

#[test]
fn a_valid_download_is_cached_and_returned() {
    let (sess, act) = FetchSession::start(urls(), true);
    assert!(matches!(act, FetchAction::Fetch(_)));
    let (sess, act) = sess.on_fetched(Ok(registry(&[("x", "y")])));
    assert_eq!(sess.phase, FetchPhase::Finished);
    match act {
        FetchAction::SaveAndReturn(r, u) => {
            assert_eq!(u, "https://one");
            assert_eq!(r.profiles.len(), 1);
        }
        _ => panic!("expected the registry to be saved"),
    }
}

#[test]
fn stale_cache_and_no_registries() {
    let (sess, _) = FetchSession::start(vec![], false);
    let stale = new_cache_meta(0, "u");
    let (sess, act) = sess.on_cache_meta(Some(stale), 10_000);
    assert!(matches!(act, FetchAction::LoadFallback));
    assert_eq!(sess.phase, FetchPhase::LoadingFallback);
    let (_, act) = FetchSession::start(vec![], true);
    assert!(matches!(act, FetchAction::LoadFallback));
    let (sess, _) = FetchSession::start(urls(), false);
    let (sess, _) = sess.on_cache_meta(Some(new_cache_meta(5, "u")), 6);
    let (_, act) = sess.on_cached_data(None);
    assert!(matches!(act, FetchAction::Fetch(_)));
}

#[test]
fn a_step_out_of_its_phase_ends_the_lookup() {
    let (sess, _) = FetchSession::start(urls(), false);
    let (sess, act) = sess.on_fetched(Ok(registry(&[("x", "y")])));
    assert_eq!(sess.phase, FetchPhase::Finished);
    match act {
        FetchAction::Fail(e) => assert_eq!(e.message(), "registry lookup step out of order"),
        _ => panic!("expected an error"),
    }
    let (sess, _) = FetchSession::start(urls(), true);
    let (_, act) = sess.on_cached_data(None);
    assert!(matches!(act, FetchAction::Fail(RegistryError::StepOutOfOrder)));
    let (sess, _) = FetchSession::start(urls(), false);
    let (_, act) = sess.on_fallback_missing();
    assert!(matches!(act, FetchAction::Fail(RegistryError::StepOutOfOrder)));
    let bad = FetchSession { urls: vec![], phase: FetchPhase::Fetching(3) };
    let (_, act) = bad.on_fetched(Err(RegistryError::AllFailed));
    assert!(matches!(act, FetchAction::Fail(RegistryError::StepOutOfOrder)));
}

#[test]
fn a_stale_cache_goes_to_the_first_accepted_registry() {
    let (sess, _) = FetchSession::start(urls(), false);
    let (sess, _) = sess.on_cache_meta(Some(new_cache_meta(0, "u")), 3_600);
    let (sess, _) = sess.on_fetched(Ok(registry(&[])));
    let (_, act) = sess.on_fetched(Ok(registry(&[("b", "c")])));
    match act {
        FetchAction::SaveAndReturn(r, u) => {
            assert_eq!(u, "https://two");
            assert_eq!(r.profiles[0].name, "b");
        }
        _ => panic!("expected the second registry"),
    }
}
