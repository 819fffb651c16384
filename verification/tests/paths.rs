use logicapps_lint::path_utils::{
    components_of, display_path, join_paths, link_target, normalize_path, parent_of,
    path_starts_with, target_outside_root,
};

#[test]
fn components_ignore_repeated_and_trailing_separators() {
    assert_eq!(components_of("/a//b/./c/"), vec!["/", "a", "b", "c"]);
    assert_eq!(components_of("./a/../b"), vec![".", "a", "..", "b"]);
    assert!(components_of("").is_empty());
    assert_eq!(components_of("/"), vec!["/"]);
}

#[test]
fn normalizing_drops_dots_and_resolves_parents() {
    assert_eq!(normalize_path("/a/./b/../c"), "/a/c");
    assert_eq!(normalize_path("a/b/../../c"), "c");
    assert_eq!(normalize_path("./a"), "a");
    assert_eq!(normalize_path("a/.."), "");
}

#[test]
fn normalizing_never_climbs_over_the_start() {
    assert_eq!(normalize_path("/../a"), "/a");
    assert_eq!(normalize_path("../a"), "a");
    assert_eq!(normalize_path("/.."), "/");
}

#[test]
fn normalizing_twice_changes_nothing() {
    for path in ["/a/./b/../c", "x//y/.", "../..", "", "/"] {
        let once = normalize_path(path);
        assert_eq!(normalize_path(&once), once);
    }
}

#[test]
fn paths_below_the_base_are_shown_without_it() {
    assert_eq!(display_path("/work/app", "/work/app/Flow/workflow.json"), "Flow/workflow.json");
    assert_eq!(display_path("app", "app/workflow.json"), "workflow.json");
    assert_eq!(display_path("", "workflow.json"), "workflow.json");
    assert_eq!(display_path("/", "/workflow.json"), "workflow.json");
}

#[test]
fn shown_paths_keep_their_spelling() {
    assert_eq!(display_path("/work", "/work/a//b/./c/"), "a//b/./c");
    assert_eq!(display_path("/work", "/work/\u{1b}[31m.json"), "\u{1b}[31m.json");
}

#[test]
fn the_base_itself_is_shown_by_its_name() {
    assert_eq!(display_path("/work/app", "/work/app"), "app");
    assert_eq!(display_path("/", "/"), "/");
}

#[test]
fn other_absolute_paths_are_reached_through_parents() {
    assert_eq!(display_path("/work/app/x", "/work/lib/y.json"), "../../lib/y.json");
    assert_eq!(display_path("/a/b", "/a"), "..");
}

#[test]
fn paths_that_cannot_be_reached_are_shown_by_their_name() {
    assert_eq!(display_path("app", "/elsewhere/workflow.json"), "workflow.json");
    assert_eq!(display_path("/a/../b", "/c/d.json"), "d.json");
    assert_eq!(display_path("app", "other/.."), "other/..");
}

#[test]
fn a_base_is_a_prefix_by_whole_components() {
    assert!(path_starts_with("/work/app/x", "/work/app"));
    assert!(!path_starts_with("/work/application", "/work/app"));
    assert!(path_starts_with("/work//app", "/work/app/"));
}

#[test]
fn parents_lose_the_last_component() {
    assert_eq!(parent_of("/a/b").as_deref(), Some("/a"));
    assert_eq!(parent_of("/a").as_deref(), Some("/"));
    assert_eq!(parent_of("a").as_deref(), Some(""));
    assert_eq!(parent_of("a//b/").as_deref(), Some("a"));
    assert_eq!(parent_of("/"), None);
    assert_eq!(parent_of(""), None);
}

#[test]
fn joining_an_absolute_path_replaces_the_base() {
    assert_eq!(join_paths("/a", "/b"), "/b");
    assert_eq!(join_paths("/a", "b"), "/a/b");
    assert_eq!(join_paths("/", "b"), "/b");
    assert_eq!(join_paths("", "b"), "b");
}

#[test]
fn links_start_from_the_directory_that_holds_them() {
    assert_eq!(link_target("/a/link", "../b", None).as_deref(), Some("/a/../b"));
    assert_eq!(link_target("/a/link", "/b", None).as_deref(), Some("/b"));
    assert_eq!(link_target("a/link", "b", Some("/work")).as_deref(), Some("/work/a/b"));
    assert_eq!(link_target("a/link", "b", None), None);
}

#[test]
fn targets_are_judged_physically_where_possible() {
    assert!(target_outside_root("/root", Some("/etc/x"), "/root/x"));
    assert!(!target_outside_root("/root", Some("/root/x"), "/etc/x"));
    assert!(target_outside_root("/root", None, "/root/../etc/x"));
    assert!(!target_outside_root("/root", None, "/root/a/../x"));
}

#[test]
fn shown_paths_lead_back() {
    for (base, path) in [
        ("/work/app", "/work/app/a//b/./c.json"),
        ("/work/app/", "/work/lib/c.json"),
        ("/work/app", "/work"),
        ("/", "/c.json"),
        ("/a//b", "/c"),
    ] {
        let shown = display_path(base, path);
        assert!(!shown.starts_with('/'), "{shown}");
        let back = normalize_path(&join_paths(base, &shown));
        assert_eq!(components_of(&back), components_of(path), "{base} {path}");
    }
}
