use auth_gate::workspace::{ProjectDetail, ProjectRegistry, TaskDetail, WorkspaceError};

fn task(id: usize, title: &str) -> TaskDetail {
    TaskDetail {
        id,
        title: title.to_string(),
        assignee: None,
        current_status: "open".to_string(),
    }
}

fn project(id: usize, name: &str, tasks: Vec<TaskDetail>) -> ProjectDetail {
    ProjectDetail { id, name: name.to_string(), task_list: tasks }
}

#[test]
fn add_project_returns_the_stored_project() {
    let mut reg = ProjectRegistry::new();
    let mut t = task(7, "write");
    t.assignee = Some("ann".to_string());
    let added = reg.add_project(project(1, "alpha", vec![t]));
    assert_eq!(added.id, 1);
    assert_eq!(added.name, "alpha");
    assert_eq!(added.task_list.len(), 1);
    assert_eq!(added.task_list[0].assignee.as_deref(), Some("ann"));
}

#[test]
fn modify_task_title_changes_the_task() {
    let mut reg = ProjectRegistry::new();
    reg.add_project(project(1, "alpha", vec![task(1, "a"), task(2, "b")]));
    reg.add_project(project(2, "beta", vec![task(2, "c")]));
    let t = reg.modify_task_title(2, 2, "renamed".to_string()).unwrap();
    assert_eq!(t.id, 2);
    assert_eq!(t.title, "renamed");
    assert_eq!(t.current_status, "open");
    let again = reg.modify_task_title(2, 2, "twice".to_string()).unwrap();
    assert_eq!(again.title, "twice");
}

#[test]
fn modify_unknown_project_or_task_is_not_found() {
    let mut reg = ProjectRegistry::new();
    reg.add_project(project(1, "alpha", vec![task(1, "a")]));
    let e = reg.modify_task_title(9, 1, "x".to_string()).unwrap_err();
    assert!(matches!(e, WorkspaceError::NotFound(_)));
    assert_eq!(e.message(), "Project or Task not found.");
    assert_eq!(e.status_code(), 404);
    let e = reg.modify_task_title(1, 9, "x".to_string()).unwrap_err();
    assert!(matches!(e, WorkspaceError::NotFound(_)));
}

#[test]
fn only_the_first_project_with_an_id_is_searched() {
    let mut reg = ProjectRegistry::new();
    reg.add_project(project(1, "first", vec![task(1, "a")]));
    reg.add_project(project(1, "second", vec![task(5, "b")]));
    assert!(reg.modify_task_title(1, 5, "x".to_string()).is_err());
}

#[test]
fn lock_failure_is_500() {
    let e = WorkspaceError::lock_failure();
    assert_eq!(e.status_code(), 500);
    assert_eq!(e.message(), "Failed to acquire mutex lock");
}
