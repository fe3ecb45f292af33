use yacs::orchestrator::{FetchOutcome, PipelineError};
use yacs::registry::{Component, ComponentManager, PathConfig};

fn component(name: &str, url: &str, run: &[&str], after: &[&str]) -> Component {
    Component::new(
        name.to_string(),
        url.to_string(),
        run.iter().map(|s| s.to_string()).collect(),
        after.iter().map(|s| s.to_string()).collect(),
    )
}

fn manager(components: Vec<Component>) -> ComponentManager {
    let paths = PathConfig::new("/opt/yacs".to_string(), "/opt/yacs/yacs".to_string());
    ComponentManager::new(components, paths)
}

#[test]
fn run_without_update_fails_and_promotes_nothing() {
    let m = manager(vec![component("svc1", "url1", &["echo hi"], &[])]);
    let r = m.run_plan(false, true);
    assert!(matches!(r, Err(PipelineError::StagingMissing)));
}

#[test]
fn update_plan_has_one_fetch_and_one_task_per_component() {
    let m = manager(vec![
        component("a", "url-a", &["run-a"], &["after-a"]),
        component("b", "url-b", &["run-b"], &[]),
        component("c", "url-c", &[], &["after-c1", "after-c2"]),
    ]);
    let p = m.update_plan();
    assert_eq!(p.staging_root, "/opt/yacs/yacs_modules/source");
    assert_eq!(p.fetches.len(), 3);
    assert_eq!(p.tasks.len(), 3);
    for (f, name) in p.fetches.iter().zip(["a", "b", "c"]) {
        assert_eq!(f.name, name);
        assert_eq!(f.parent, "/opt/yacs/yacs_modules/source");
    }
    assert_eq!(p.fetches[1].url, "url-b");
    assert_eq!(p.tasks[2].name, "c");
    assert_eq!(
        p.tasks[2].commands,
        vec!["after-c1".to_string(), "after-c2".to_string()]
    );
    assert_eq!(p.tasks[2].workdir, "/opt/yacs/yacs_modules/source/c");
    assert!(p.tasks.iter().all(|t| t.visible));
}

#[test]
fn run_plan_roots_every_task_in_its_own_live_directory() {
    let m = manager(vec![
        component("a", "url-a", &["run-a"], &[]),
        component("b", "url-b", &["run-b"], &[]),
    ]);
    let p = m.run_plan(true, false).unwrap();
    assert_eq!(p.staging_root, "/opt/yacs/yacs_modules/source");
    assert_eq!(p.live_root, "/opt/yacs/yacs_modules/live");
    assert_eq!(p.tasks.len(), 2);
    assert_eq!(p.tasks[0].workdir, "/opt/yacs/yacs_modules/live/a");
    assert_eq!(p.tasks[1].workdir, "/opt/yacs/yacs_modules/live/b");
    assert_eq!(p.tasks[0].commands, vec!["run-a".to_string()]);
    assert!(p.tasks.iter().all(|t| !t.visible));
}

#[test]
fn staging_holds_exactly_the_fetched_components() {
    let m = manager(vec![
        component("a", "url-a", &[], &[]),
        component("b", "url-b", &[], &[]),
        component("c", "url-c", &[], &[]),
    ]);
    let all_ok = vec![
        FetchOutcome::Fetched,
        FetchOutcome::Fetched,
        FetchOutcome::Fetched,
    ];
    let staged = m.staged_component_names(&all_ok);
    assert_eq!(staged, vec!["a".to_string(), "b".to_string(), "c".to_string()]);

    // The layout after a second identical update is the same: nothing
    // stale survives, nothing new appears.
    let again = m.staged_component_names(&all_ok);
    assert_eq!(staged, again);

    let one_failed = vec![
        FetchOutcome::Fetched,
        FetchOutcome::FetchFailed {
            message: "unreachable".to_string(),
        },
        FetchOutcome::Fetched,
    ];
    assert_eq!(
        m.staged_component_names(&one_failed),
        vec!["a".to_string(), "c".to_string()]
    );
}

#[test]
fn update_report_pairs_each_component_with_its_own_outcomes() {
    let m = manager(vec![
        component("x", "url-x", &[], &["after-x"]),
        component("y", "url-y", &[], &["after-y"]),
    ]);
    let fetches = vec![
        FetchOutcome::FetchFailed {
            message: "unreachable".to_string(),
        },
        FetchOutcome::Fetched,
    ];
    let report = m.update_report(fetches, vec![Vec::new(), Vec::new()]);
    assert_eq!(report.len(), 2);
    assert_eq!(report[0].name, "x");
    assert!(matches!(
        &report[0].fetch,
        FetchOutcome::FetchFailed { .. }
    ));
    assert_eq!(report[1].name, "y");
    assert!(matches!(&report[1].fetch, FetchOutcome::Fetched));
}

#[test]
fn default_registry_has_the_single_builtin_component() {
    let paths = PathConfig::new("/opt/yacs".to_string(), "/opt/yacs/yacs".to_string());
    let m = ComponentManager::new_default(paths);
    assert_eq!(m.len(), 1);
    assert_eq!(m.components[0].name, "YACSMS");
    assert_eq!(
        m.components[0].pull_url,
        "https://github.com/xypine/yacs_manager.git"
    );
    assert_eq!(m.components[0].run, vec!["sh runme.sh".to_string()]);
    assert!(m.components[0].run_after_update.is_empty());
}

#[test]
fn empty_registry_plans_no_work() {
    let m = manager(Vec::new());
    let update = m.update_plan();
    assert!(update.fetches.is_empty());
    assert!(update.tasks.is_empty());
    let run = m.run_plan(true, true).unwrap();
    assert!(run.tasks.is_empty());
    assert!(m.staged_component_names(&Vec::new()).is_empty());
}

// Duplicate names key both components to the same directory: the later
// fetch replaces the earlier one's tree, and both tasks share a working
// directory. A registry is expected to keep names unique; this pins what
// happens when it does not.
#[test]
fn duplicate_names_share_one_directory() {
    let m = manager(vec![
        component("a", "url-1", &["run-1"], &[]),
        component("a", "url-2", &["run-2"], &[]),
    ]);
    let update = m.update_plan();
    assert_eq!(update.tasks[0].workdir, update.tasks[1].workdir);
    let staged = m.staged_component_names(&vec![
        FetchOutcome::Fetched,
        FetchOutcome::Fetched,
    ]);
    assert_eq!(staged, vec!["a".to_string(), "a".to_string()]);
    let staged_one = m.staged_component_names(&vec![
        FetchOutcome::FetchFailed {
            message: "unreachable".to_string(),
        },
        FetchOutcome::Fetched,
    ]);
    assert_eq!(staged_one, vec!["a".to_string()]);
}
