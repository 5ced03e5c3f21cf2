use status_bar::data::workspace::{Workspace, WorkspacePosition};
use status_bar::utils::clsx;

fn positions(existing: &[i32]) -> Vec<WorkspacePosition> {
    Workspace::all(&existing.to_vec(), None).into_iter().map(|w| w.position).collect()
}

use WorkspacePosition::{Between, Both, First, Last};

#[test]
fn there_are_always_ten_workspaces() {
    let all = Workspace::all(&vec![], None);
    assert_eq!(all.len(), 10);
    for (index, workspace) in all.iter().enumerate() {
        assert_eq!(workspace.id, index + 1);
        assert!(!workspace.exists);
        assert!(!workspace.active);
    }
}

#[test]
fn a_single_run_has_a_first_and_a_last() {
    let expected = vec![First, Between, Between, Between, Between, Between, Between, Between, Between, Last];
    assert_eq!(positions(&[]), expected);
    assert_eq!(positions(&[1, 2, 3, 4, 5, 6, 7, 8, 9, 10]), expected);
}

#[test]
fn runs_break_where_existence_changes() {
    assert_eq!(
        positions(&[1, 2, 3, 5]),
        vec![First, Between, Last, Both, Both, First, Between, Between, Between, Last]
    );
    assert_eq!(
        positions(&[10, 2]),
        vec![Both, Both, First, Between, Between, Between, Between, Between, Last, Both]
    );
    assert_eq!(
        positions(&[1, 3, 5, 7, 9]),
        vec![Both, Both, Both, Both, Both, Both, Both, Both, Both, Both]
    );
    assert_eq!(
        positions(&[4, 5]),
        vec![First, Between, Last, First, Last, First, Between, Between, Between, Last]
    );
}

#[test]
fn numbers_outside_the_bar_do_not_count() {
    let all = Workspace::all(&vec![0, 11, -1, i32::MIN, i32::MAX, 3, 3], Some(42));
    let exists: Vec<bool> = all.iter().map(|w| w.exists).collect();
    assert_eq!(exists, vec![false, false, true, false, false, false, false, false, false, false]);
    assert!(all.iter().all(|w| !w.active));
}

#[test]
fn the_active_workspace_is_marked() {
    let all = Workspace::all(&vec![2, 3], Some(3));
    for workspace in &all {
        assert_eq!(workspace.active, workspace.id == 3);
        assert_eq!(workspace.exists, workspace.id == 2 || workspace.id == 3);
    }
    let all = Workspace::all(&vec![2], Some(7));
    assert!(all[6].active);
    assert!(!all[6].exists);
}

#[test]
fn class_names_follow_the_flags() {
    let workspace = Workspace { id: 1, position: Both, exists: true, active: true };
    assert_eq!(workspace.css_classes(), vec!["exists", "active", "first", "last"]);
    let workspace = Workspace { id: 4, position: First, exists: true, active: false };
    assert_eq!(workspace.css_classes(), vec!["exists", "first"]);
    let workspace = Workspace { id: 4, position: Last, exists: false, active: true };
    assert_eq!(workspace.css_classes(), vec!["active", "last"]);
    let workspace = Workspace { id: 4, position: Between, exists: false, active: false };
    assert!(workspace.css_classes().is_empty());
}

#[test]
fn clsx_keeps_the_names_that_are_switched_on() {
    assert!(clsx(vec![]).is_empty());
    assert_eq!(clsx(vec![(true, "a"), (false, "b"), (true, "c"), (true, "a")]), vec!["a", "c", "a"]);
    assert!(clsx(vec![(false, "a"), (false, "b")]).is_empty());
}
