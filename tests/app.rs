use tudo::app::{App, AppError};
use tudo::config::Cfg;
use tudo::google::GoogleTasksProvider;
use tudo::provider::{Provider, ProviderError};
use tudo::task::{Status, Task, Tasklist};

fn task(id: &str, status: Status) -> Task {
    Task::new(id, status, id, None, None)
}

fn inbox_and_work() -> App<GoogleTasksProvider> {
    App::new(GoogleTasksProvider::new(vec![
        Tasklist::new(
            "inbox".to_string(),
            "Inbox".to_string(),
            &[task("a", Status::Todo), task("b", Status::Done)],
        ),
        Tasklist::new("work".to_string(), "Work".to_string(), &[]),
    ]))
}

fn three_lists() -> App<GoogleTasksProvider> {
    App::new(GoogleTasksProvider::new(vec![
        Tasklist::new(
            "1".to_string(),
            "One".to_string(),
            &[task("a", Status::Todo), task("b", Status::Todo), task("c", Status::Unknown)],
        ),
        Tasklist::new("2".to_string(), "Two".to_string(), &[]),
        Tasklist::new("3".to_string(), "Three".to_string(), &[task("d", Status::Done)]),
    ]))
}

#[test]
fn next_tasklist_moves_to_work_and_clears_selection() {
    let mut app = inbox_and_work();
    app.tasks_next();
    assert_eq!(app.selection, Some(0));
    app.tasklists_next();
    assert_eq!(app.active_tasklist, 1);
    assert_eq!(app.active_tasklist().unwrap().title, "Work");
    assert_eq!(app.selection, None);
    app.tasks_next();
    assert_eq!(app.selection, None);
    app.tasks_previous();
    assert_eq!(app.selection, None);
}

#[test]
fn tasklists_cycle_back() {
    let mut app = three_lists();
    app.tasklists_next();
    assert_eq!(app.active_tasklist, 1);
    for _ in 0..3 {
        app.tasklists_next();
    }
    assert_eq!(app.active_tasklist, 1);
    app.tasklists_previous();
    assert_eq!(app.active_tasklist, 0);
    app.tasklists_previous();
    assert_eq!(app.active_tasklist, 2);
    app.tasklists_next();
    assert_eq!(app.active_tasklist, 0);
}

#[test]
fn no_tasklists_is_a_no_op() {
    let mut app = App::new(GoogleTasksProvider::new(vec![]));
    app.tasklists_next();
    assert_eq!(app.active_tasklist, 0);
    app.tasklists_previous();
    assert_eq!(app.active_tasklist, 0);
    assert!(app.active_tasklist().is_none());
    app.tasks_next();
    assert_eq!(app.selection, None);
    app.tasks_previous();
    assert_eq!(app.selection, None);
    assert_eq!(app.toggle_task_state().err(), Some(AppError::NoActiveTask));
}

#[test]
fn tasks_cycle_both_ways() {
    let mut app = three_lists();
    app.tasks_next();
    assert_eq!(app.selection, Some(0));
    for _ in 0..3 {
        app.tasks_next();
    }
    assert_eq!(app.selection, Some(0));
    app.tasks_previous();
    assert_eq!(app.selection, Some(2));
    for _ in 0..3 {
        app.tasks_previous();
    }
    assert_eq!(app.selection, Some(2));
    app.tasks_next();
    assert_eq!(app.selection, Some(0));
}

#[test]
fn previous_without_selection_selects_first() {
    let mut app = three_lists();
    app.tasks_previous();
    assert_eq!(app.selection, Some(0));
    assert_eq!(app.active_task().unwrap().id, "a");
}

#[test]
fn toggle_needs_a_selected_task() {
    let app = three_lists();
    assert_eq!(app.toggle_task_state().err(), Some(AppError::NoActiveTask));
    let mut app = three_lists();
    app.selection = Some(7);
    assert!(app.active_task().is_none());
    assert_eq!(app.toggle_task_state().err(), Some(AppError::NoActiveTask));
}

#[test]
fn toggle_flips_todo_and_done() {
    let mut app = three_lists();
    app.tasks_next();
    let update = app.toggle_task_state().unwrap();
    assert_eq!(update.tasklist_id, "1");
    assert_eq!(update.task.id, "a");
    assert_eq!(update.task.title, "a");
    assert_eq!(update.task.status, Status::Done);
    app.tasks_previous();
    let update = app.toggle_task_state().unwrap();
    assert_eq!(update.task.id, "c");
    assert_eq!(update.task.status, Status::Unknown);
    app.tasklists_previous();
    app.tasks_next();
    let update = app.toggle_task_state().unwrap();
    assert_eq!(update.tasklist_id, "3");
    assert_eq!(update.task.status, Status::Todo);
}

#[test]
fn toggling_twice_restores_status() {
    for s in [Status::Todo, Status::Done, Status::Unknown] {
        assert_eq!(s.toggled().toggled(), s);
    }
    assert_eq!(Status::Unknown.toggled(), Status::Unknown);
    assert_eq!(Status::Todo.toggled(), Status::Done);
    assert_eq!(Status::Done.toggled(), Status::Todo);
}

#[test]
fn finished_update_reloads_and_clears_selection() {
    let mut app = three_lists();
    app.tasks_next();
    let update = app.toggle_task_state().unwrap();
    let reloaded = vec![update.task.clone(), task("b", Status::Todo)];
    assert_eq!(app.finish_update(&update.tasklist_id, reloaded), Ok(()));
    assert_eq!(app.selection, None);
    let list = app.provider.get_tasklist("1").unwrap();
    assert_eq!(list.tasks.len(), 2);
    assert_eq!(list.tasks[0].status, Status::Done);
    assert_eq!(list.title, "One");
}

#[test]
fn finished_update_of_unknown_tasklist_fails() {
    let mut app = three_lists();
    app.tasks_next();
    assert_eq!(
        app.finish_update("gone", vec![]),
        Err(AppError::Provider(ProviderError::NotFound))
    );
    assert_eq!(app.selection, Some(0));
    assert_eq!(app.provider.get_tasklists()[0].tasks.len(), 3);
}

#[test]
fn quit_and_tick() {
    let mut app = three_lists();
    app.on_tick();
    assert!(!app.should_quit);
    app.quit();
    assert!(app.should_quit);
}

#[test]
fn tasklist_accessors() {
    let list = Tasklist::new("x".to_string(), "X".to_string(), &[task("a", Status::Todo)]);
    assert_eq!(list.len(), 1);
    assert!(!list.is_empty());
    assert_eq!(list.get(0).unwrap().id, "a");
    assert!(list.get(1).is_none());
    let empty = Tasklist::new("y".to_string(), "Y".to_string(), &[]);
    assert!(empty.is_empty());
}

#[test]
fn task_constructor_copies_fields() {
    let t = Task::new("i", Status::Done, "T", None, Some("note"));
    assert_eq!(t.id, "i");
    assert_eq!(t.title, "T");
    assert_eq!(t.status, Status::Done);
    assert_eq!(t.notes, Some("note".to_string()));
    let c = t.clone();
    assert_eq!(c.notes, Some("note".to_string()));
}

#[test]
fn default_config() {
    assert_eq!(Cfg::default().client_secret, "client_secret.json");
}
