use nvimx::paths::{
    backup_dir, cache_home, cache_root, clean_targets, config_root, data_root, get_profiles_dir, join_path,
    nvimx_config_dir, parent_path, profile_dir, shorten_path, shorten_path_everywhere, state_root,
    DirError,
};

fn s(x: &str) -> String {
    x.to_string()
}

#[test]
fn join_follows_pathbuf_rules() {
    assert_eq!(join_path("/a", "b"), "/a/b");
    assert_eq!(join_path("/a/", "b"), "/a/b");
    assert_eq!(join_path("", "b"), "b");
    assert_eq!(join_path("/a", "/etc"), "/etc");
    assert_eq!(join_path("a", ""), "a/");
}

#[test]
fn parent_follows_path_rules() {
    let p = |x: &str| parent_path(x);
    assert_eq!(p("/a/b"), Some(s("/a")));
    assert_eq!(p("/a"), Some(s("/")));
    assert_eq!(p("/"), None);
    assert_eq!(p(""), None);
    assert_eq!(p("a"), Some(s("")));
    assert_eq!(p("a/b/"), Some(s("a")));
    assert_eq!(p("./a"), Some(s(".")));
    assert_eq!(p("."), Some(s("")));
    assert_eq!(p("a/./"), Some(s("")));
    assert_eq!(p("/a//b"), Some(s("/a")));
    assert_eq!(p("../x"), Some(s("..")));
    assert_eq!(p("/x/y/."), Some(s("/x")));
    // The same answers as std's own Path::parent.
    for case in ["/a/b", "/a", "/", "", "a", "a/b/", "./a", ".", "a/./", "/a//b", "../x", "/x/y/.", "//", "a//", "./", "x/.."] {
        let expected = std::path::Path::new(case).parent().map(|q| q.to_str().unwrap().to_string());
        assert_eq!(p(case), expected, "{case:?}");
    }
}

#[test]
fn xdg_roots_prefer_the_variable() {
    assert_eq!(config_root(Some(s("/xdg")), Some(s("/home/u"))), "/xdg/nvim");
    assert_eq!(config_root(None, Some(s("/home/u"))), "/home/u/.config/nvim");
    assert_eq!(config_root(None, None), ".config/nvim");
    assert_eq!(data_root(None, Some(s("/h"))), "/h/.local/share/nvim");
    assert_eq!(data_root(Some(s("/d/")), Some(s("/h"))), "/d/nvim");
    assert_eq!(state_root(None, Some(s("/h"))), "/h/.local/state/nvim");
    assert_eq!(cache_root(None, Some(s("/h"))), "/h/.cache/nvim");
    // An empty or relative XDG variable counts as unset.
    assert_eq!(cache_root(Some(s("")), Some(s("/h"))), "/h/.cache/nvim");
    assert_eq!(cache_root(Some(s("tmp")), Some(s("/h"))), "/h/.cache/nvim");
    assert_eq!(config_root(Some(s("rel/dir")), Some(s("/h"))), "/h/.config/nvim");
    assert_eq!(cache_root(Some(s("/x")), Some(s("/h"))), "/x/nvim");
    assert_eq!(cache_home(Some(s("")), Some(s("/h"))), "/h/.cache");
    assert_eq!(cache_home(Some(s("/x")), Some(s("/h"))), "/x");
}

#[test]
fn nvimx_directories_sit_beside_the_roots() {
    assert_eq!(nvimx_config_dir("/h/.config/nvim").ok(), Some(s("/h/.config/nvimx")));
    assert_eq!(nvimx_config_dir("nvim").ok(), Some(s("nvimx")));
    assert_eq!(backup_dir("/h/.local/share/nvim").ok(), Some(s("/h/.local/share/nvimx/backups")));
    match nvimx_config_dir("/") {
        Err(e) => {
            assert_eq!(e, DirError::ConfigRootHasNoParent);
            assert_eq!(e.message(), "config_root has no parent");
        }
        Ok(_) => panic!("the root has no parent"),
    }
    match backup_dir("") {
        Err(e) => assert_eq!(e.message(), "data_root has no parent"),
        Ok(_) => panic!("the empty path has no parent"),
    }
    assert_eq!(profile_dir("/h/.config/nvim", "lazyvim"), "/h/.config/nvim/lazyvim");
}

#[test]
fn profiles_dir_expands_home() {
    let home = Some(s("/h"));
    assert_eq!(get_profiles_dir(&Some(s("~/.config/nvim")), home.clone(), "/x"), "/h/.config/nvim");
    assert_eq!(get_profiles_dir(&Some(s("~")), home.clone(), "/x"), "/h");
    assert_eq!(get_profiles_dir(&Some(s("/abs")), home.clone(), "/x"), "/abs");
    assert_eq!(get_profiles_dir(&Some(s("~user/x")), home.clone(), "/x"), "~user/x");
    assert_eq!(get_profiles_dir(&None, home, "/x"), "/x");
    assert_eq!(get_profiles_dir(&Some(s("~/x")), None, "/x"), "x");
    assert_eq!(get_profiles_dir(&Some(s("~//etc")), Some(s("/h")), "/x"), "/etc");
}

#[test]
fn shortening_replaces_home() {
    assert_eq!(shorten_path("/home/u/a", Some(s("/home/u"))), "~/a");
    assert_eq!(shorten_path("/srv/home/u", Some(s("/home/u"))), "/srv/home/u");
    assert_eq!(shorten_path("/home/u/a", None), "/home/u/a");
    assert_eq!(shorten_path_everywhere("/home/u/x/home/u", Some(s("/home/u"))), "~/x~");
    assert_eq!(shorten_path_everywhere("ab", Some(s(""))), "~a~b~");
    assert_eq!(shorten_path_everywhere("/a", None), "/a");
    assert_eq!(shorten_path_everywhere("aaa", Some(s("aa"))), "~a");
    assert_eq!("aaa".replace("aa", "~"), "~a");
    assert_eq!("ab".replace("", "~"), "~a~b~");
}

#[test]
fn clean_considers_four_directories() {
    let t = clean_targets("/c/nvim", "/d/nvim", "/s/nvim", "/k/nvim", "p").unwrap();
    let got: Vec<(String, String)> = t.into_iter().map(|x| (x.label, x.path)).collect();
    assert_eq!(
        got,
        vec![
            (s("Config"), s("/c/nvim/p")),
            (s("Data"), s("/d/nvim/p")),
            (s("State"), s("/s/nvim/p")),
            (s("Cache"), s("/k/nvim/p")),
        ]
    );
}

#[test]
fn clean_refuses_names_that_leave_the_roots() {
    for bad in ["/", "..", ".", "a/../..", "", "x/y", "/etc", "a/"] {
        assert!(clean_targets("/c/nvim", "/d/nvim", "/s/nvim", "/k/nvim", bad).is_none(), "{bad:?}");
    }
    for good in ["my.profile", "my profile", "é", ".hidden", "...", "a..b"] {
        let t = clean_targets("/c/nvim", "/d/nvim", "/s/nvim", "/k/nvim", good).expect(good);
        assert_eq!(t[1].path, format!("/d/nvim/{good}"));
        for (x, root) in t.iter().zip(["/c/nvim", "/d/nvim", "/s/nvim", "/k/nvim"]) {
            assert_eq!(parent_path(&x.path), Some(s(root)), "{good:?}");
        }
    }
    let t = clean_targets("/c/nvim/", "/d/nvim", "/s/nvim", "/k/nvim", "lazyvim").unwrap();
    assert_eq!(parent_path(&t[0].path), Some(s("/c/nvim")));
    assert_eq!(parent_path(&t[3].path), Some(s("/k/nvim")));
}

#[test]
fn a_profile_directory_is_a_child_of_its_base() {
    for base in ["/h/.config/nvim", "/h/.config/nvim/", "/", "", "rel", "./x/.", "a//"] {
        let dir = profile_dir(base, "my-profile_1");
        let expected = std::path::Path::new(base).components().as_path().to_str().unwrap().to_string();
        assert_eq!(parent_path(&dir), Some(expected), "{base:?}");
    }
}
