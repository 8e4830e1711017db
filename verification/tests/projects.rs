use yt_mcp::attachment::WriteError;
use yt_mcp::projects::{resolve_project_id, resolve_with_cache, ProjectIdCache, ProjectRef};

fn project(id: Option<&str>, short_name: Option<&str>) -> ProjectRef {
    ProjectRef { id: id.map(str::to_owned), short_name: short_name.map(str::to_owned) }
}

#[test]
fn a_short_name_resolves_case_insensitively() {
    let ps = vec![project(Some("0-7"), Some("DEMO")), project(Some("0-5"), Some("BSA"))];
    assert_eq!(resolve_project_id(&ps, "demo"), Ok("0-7".to_owned()));
    assert_eq!(resolve_project_id(&ps, "Bsa"), Ok("0-5".to_owned()));
}

#[test]
fn an_unknown_project_lists_what_is_available() {
    let ps = vec![
        project(Some("0-7"), Some("DEMO")),
        project(Some("0-9"), None),
        project(Some("0-5"), Some("BSA")),
    ];
    let err = resolve_project_id(&ps, "NOPE").expect_err("must fail");
    assert_eq!(err, WriteError::ProjectNotFound("NOPE".to_owned(), "DEMO, BSA".to_owned()));
    let err = resolve_project_id(&Vec::new(), "x").expect_err("must fail");
    assert_eq!(err, WriteError::ProjectNotFound("x".to_owned(), String::new()));
}

#[test]
fn the_first_matching_project_decides() {
    let ps = vec![project(None, Some("DEMO")), project(Some("0-8"), Some("demo"))];
    assert!(
        matches!(resolve_project_id(&ps, "DEMO"), Err(WriteError::ProjectNotFound(..))),
        "the first match has no id"
    );
}

#[test]
fn the_cache_remembers_projects_once_listed() {
    let mut cache = ProjectIdCache::new();
    assert_eq!(cache.get("DEMO"), None);
    let ps = vec![project(Some("0-7"), Some("demo")), project(Some("0-5"), Some("BSA"))];
    assert_eq!(resolve_with_cache(&mut cache, &ps, "Demo"), Ok("0-7".to_owned()));
    assert_eq!(cache.get("DEMO"), Some("0-7".to_owned()));
    assert_eq!(cache.get("BSA"), Some("0-5".to_owned()));
    let ps = vec![project(Some("0-8"), Some("DEMO"))];
    assert_eq!(resolve_with_cache(&mut cache, &ps, "demo"), Ok("0-8".to_owned()), "later wins");
    assert_eq!(
        resolve_with_cache(&mut cache, &ps, "NOPE"),
        Err(WriteError::ProjectNotFound("NOPE".to_owned(), "DEMO".to_owned()))
    );
}

#[test]
fn a_fresh_list_replaces_the_cached_id() {
    let mut cache = ProjectIdCache::new();
    let first = vec![project(Some("0-1"), Some("demo")), project(Some("0-2"), Some("Other"))];
    cache.absorb(&first);
    assert_eq!(cache.get("DEMO").as_deref(), Some("0-1"));
    let second = vec![project(Some("0-9"), Some("Demo"))];
    cache.absorb(&second);
    assert_eq!(cache.get("DEMO").as_deref(), Some("0-9"));
    assert_eq!(cache.get("OTHER").as_deref(), Some("0-2"));
    assert_eq!(cache.get("NOPE"), None);
}
