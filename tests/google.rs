use tudo::google::{
    due_to_wire, gtask_to_task, status_from_wire, status_to_wire, task_to_gtask,
    tasklists_from_records, tasks_from_records, GoogleTask, GoogleTaskList, GoogleTasksProvider,
};
use tudo::provider::{Provider, ProviderError};
use tudo::task::{Status, Task, Tasklist};
use tudo::timestamps::{parse_due, CalendarDate, TimeOfDay, TimestampType};

fn text(s: &str) -> Option<String> {
    Some(s.to_string())
}

fn record(id: Option<&str>, title: Option<&str>) -> GoogleTask {
    GoogleTask {
        id: id.map(|s| s.to_string()),
        status: text("needsAction"),
        title: title.map(|s| s.to_string()),
        due: None,
        notes: None,
    }
}

fn list_record(id: Option<&str>, title: Option<&str>) -> GoogleTaskList {
    GoogleTaskList { id: id.map(|s| s.to_string()), title: title.map(|s| s.to_string()) }
}

fn task(id: &str, title: &str) -> Task {
    Task::new(id, Status::Todo, title, None, None)
}

fn provider() -> GoogleTasksProvider {
    GoogleTasksProvider::new(vec![
        Tasklist::new("l1".to_string(), "Inbox".to_string(), &[task("a", "A"), task("b", "B")]),
        Tasklist::new("l2".to_string(), "Work".to_string(), &[]),
        Tasklist::new("l1".to_string(), "Shadow".to_string(), &[task("z", "Z")]),
    ])
}

#[test]
fn wire_status_vocabulary() {
    assert_eq!(status_from_wire(&text("needsAction")), Status::Todo);
    assert_eq!(status_from_wire(&text("completed")), Status::Done);
    assert_eq!(status_from_wire(&text("deleted")), Status::Unknown);
    assert_eq!(status_from_wire(&None), Status::Unknown);
    assert_eq!(status_to_wire(Status::Todo), text("needsAction"));
    assert_eq!(status_to_wire(Status::Done), text("completed"));
    assert_eq!(status_to_wire(Status::Unknown), None);
}

#[test]
fn complete_record_becomes_a_task() {
    let g = GoogleTask {
        id: text("t1"),
        status: text("completed"),
        title: text("Buy milk"),
        due: text("2023-05-17T00:00:00.000Z"),
        notes: text("two litres"),
    };
    let t = gtask_to_task(&g).unwrap();
    assert_eq!(t.id, "t1");
    assert_eq!(t.status, Status::Done);
    assert_eq!(t.title, "Buy milk");
    assert_eq!(
        t.due,
        Some(TimestampType::Date(CalendarDate { year: 2023, month: 5, day: 17 }))
    );
    assert_eq!(t.notes, text("two litres"));
}

#[test]
fn malformed_due_is_dropped_not_the_task() {
    let g = GoogleTask {
        id: text("t1"),
        status: None,
        title: text("T"),
        due: text("tomorrow-ish"),
        notes: None,
    };
    let t = gtask_to_task(&g).unwrap();
    assert_eq!(t.due, None);
    assert_eq!(t.status, Status::Unknown);
}

#[test]
fn record_without_id_or_title_is_dropped() {
    assert!(gtask_to_task(&record(None, Some("T"))).is_none());
    assert!(gtask_to_task(&record(Some("t"), None)).is_none());
    assert!(gtask_to_task(&record(None, None)).is_none());
}

#[test]
fn incomplete_records_leave_the_others_in_order() {
    let records = vec![
        record(Some("1"), Some("first")),
        record(Some("2"), None),
        record(Some("3"), Some("third")),
    ];
    let tasks = tasks_from_records(&records);
    assert_eq!(tasks.len(), 2);
    assert_eq!(tasks[0].id, "1");
    assert_eq!(tasks[0].title, "first");
    assert_eq!(tasks[1].id, "3");
    assert_eq!(tasks[1].title, "third");
    assert!(tasks_from_records(&vec![]).is_empty());
}

#[test]
fn incomplete_tasklist_records_are_dropped() {
    let records = vec![
        list_record(Some("a"), Some("Inbox")),
        list_record(None, Some("Orphan")),
        list_record(Some("c"), Some("Work")),
        list_record(Some("d"), None),
    ];
    let lists = tasklists_from_records(&records);
    assert_eq!(lists.len(), 2);
    assert_eq!(lists[0].id, "a");
    assert_eq!(lists[0].title, "Inbox");
    assert_eq!(lists[1].id, "c");
    assert_eq!(lists[1].title, "Work");
    assert!(lists[0].tasks.is_empty() && lists[1].tasks.is_empty());
}

#[test]
fn due_dates_on_the_wire() {
    let d = CalendarDate { year: 2023, month: 5, day: 7 };
    let t = TimeOfDay { secs: 10 * 3600 + 30 * 60 + 5, nano: 0 };
    assert_eq!(due_to_wire(&TimestampType::Date(d)), "2023-05-07T00:00:00.000Z");
    assert_eq!(due_to_wire(&TimestampType::Time(t)), "0000-00-00T10:30:05.000Z");
    assert_eq!(due_to_wire(&TimestampType::DateTime(d, t)), "2023-05-07T10:30:05.000Z");
    let leap = TimeOfDay { secs: 23 * 3600 + 59 * 60 + 59, nano: 1_000_000_000 };
    assert_eq!(due_to_wire(&TimestampType::Time(leap)), "0000-00-00T23:59:60.000Z");
}

#[test]
fn wire_date_reads_back_as_the_same_date() {
    let due = TimestampType::Date(CalendarDate { year: 2024, month: 2, day: 29 });
    assert_eq!(parse_due(&due_to_wire(&due)), Some(due));
    let due = TimestampType::DateTime(
        CalendarDate { year: 2024, month: 2, day: 29 },
        TimeOfDay { secs: 3723, nano: 0 },
    );
    assert_eq!(parse_due(&due_to_wire(&due)), Some(due));
}

#[test]
fn task_is_written_back() {
    let t = Task::new(
        "t1",
        Status::Unknown,
        "Title",
        Some(TimestampType::Date(CalendarDate { year: 2023, month: 5, day: 17 })),
        Some("n"),
    );
    let g = task_to_gtask(&t);
    assert_eq!(g.id, text("t1"));
    assert_eq!(g.title, text("Title"));
    assert_eq!(g.status, None);
    assert_eq!(g.due, text("2023-05-17T00:00:00.000Z"));
    assert_eq!(g.notes, text("n"));
    let g = task_to_gtask(&task("x", "X"));
    assert_eq!(g.status, text("needsAction"));
    assert_eq!(g.due, None);
    assert_eq!(g.notes, None);
}

#[test]
fn provider_lookups() {
    let p = provider();
    assert_eq!(p.len(), 3);
    assert_eq!(p.get_tasklists().len(), 3);
    assert_eq!(p.get_tasklist("l1").unwrap().title, "Inbox");
    assert_eq!(p.get_tasklist("l2").unwrap().title, "Work");
    assert!(p.get_tasklist("nope").is_none());
    assert_eq!(p.get_nth_tasklist(1).unwrap().id, "l2");
    assert!(p.get_nth_tasklist(3).is_none());
    assert_eq!(p.get_task("l1", "b").unwrap().title, "B");
    assert!(p.get_task("l1", "z").is_none());
    assert!(p.get_task("l2", "a").is_none());
    assert!(p.get_task("nope", "a").is_none());
}

#[test]
fn reload_replaces_the_first_matching_tasklist() {
    let mut p = provider();
    let records = vec![record(Some("c"), Some("C")), record(None, Some("X"))];
    assert_eq!(p.load_tasklist("l1", &records), Ok(()));
    let lists = p.get_tasklists();
    assert_eq!(lists[0].id, "l1");
    assert_eq!(lists[0].title, "Inbox");
    assert_eq!(lists[0].tasks.len(), 1);
    assert_eq!(lists[0].tasks[0].id, "c");
    assert_eq!(lists[2].tasks[0].id, "z");
    assert_eq!(lists[1].tasks.len(), 0);
}

#[test]
fn reload_of_unknown_tasklist_is_not_found() {
    let mut p = provider();
    assert_eq!(p.load_tasklist("nope", &vec![]), Err(ProviderError::NotFound));
    assert_eq!(p.replace_tasks("nope", vec![]), Err(ProviderError::NotFound));
    assert_eq!(p.get_tasklists()[0].tasks.len(), 2);
}
