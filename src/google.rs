//! The Google Tasks backend: its wire records, their conversion to and from
//! the task model, and the tasklists it holds.
use vstd::prelude::*;
use crate::provider::{id_position, tasklist_ids, tasklist_position, tasks_replaced, Provider, ProviderError};
use crate::task::{copy_text, Status, Task, Tasklist};
use crate::timestamps::{
    clock, clock_text, date_text, due_of, iso_date, parse_due, TimestampType, DATE_SENTINEL,
    TIME_SENTINEL,
};

verus! {

/// Wire value of an open task.
pub const NEEDS_ACTION: &'static str = "needsAction";

/// Wire value of a completed task.
pub const COMPLETED: &'static str = "completed";

/// A task as the remote service sends it: every field may be missing.
#[derive(Debug)]
pub struct GoogleTask {
    pub id: Option<String>,
    pub status: Option<String>,
    pub title: Option<String>,
    pub due: Option<String>,
    pub notes: Option<String>,
}

/// A tasklist as the remote service sends it.
#[derive(Debug)]
pub struct GoogleTaskList {
    pub id: Option<String>,
    pub title: Option<String>,
}

/// The status that a wire value stands for.
pub open spec fn status_of(wire: Option<String>) -> Status {
    match wire {
        Some(s) => if s@ == NEEDS_ACTION@ {
            Status::Todo
        } else if s@ == COMPLETED@ {
            Status::Done
        } else {
            Status::Unknown
        },
        None => Status::Unknown,
    }
}

/// The task that a record stands for: none where it lacks an id or a title.
pub open spec fn task_of(g: GoogleTask) -> Option<Task> {
    match (g.id, g.title) {
        (Some(id), Some(title)) => Some(
            Task {
                id,
                status: status_of(g.status),
                title,
                due: match g.due {
                    Some(d) => due_of(d@),
                    None => None,
                },
                notes: g.notes,
            },
        ),
        _ => None,
    }
}

/// The tasks that records stand for, in their order.
pub open spec fn tasks_of(records: Seq<GoogleTask>) -> Seq<Task> {
    records.filter_map(|g: GoogleTask| task_of(g))
}

/// The id and title of the tasklist that a record stands for: none where it
/// lacks either.
pub open spec fn tasklist_header_of(g: GoogleTaskList) -> Option<(String, String)> {
    match (g.id, g.title) {
        (Some(id), Some(title)) => Some((id, title)),
        _ => None,
    }
}

/// The ids and titles of the tasklists that records stand for, in their order.
pub open spec fn tasklist_headers_of(records: Seq<GoogleTaskList>) -> Seq<(String, String)> {
    records.filter_map(|g: GoogleTaskList| tasklist_header_of(g))
}

/// `lists` are the tasklists named by `headers`, in order, without tasks.
pub open spec fn lists_match_headers(lists: Seq<Tasklist>, headers: Seq<(String, String)>) -> bool {
    &&& lists.len() == headers.len()
    &&& forall|k: int|
        0 <= k < lists.len() ==> (#[trigger] lists[k]).id == headers[k].0 && lists[k].title
            == headers[k].1 && lists[k].tasks@.len() == 0
}

/// A record with both an id and a title.
pub open spec fn is_complete(g: GoogleTask) -> bool {
    g.id is Some && g.title is Some
}

/// A tasklist record with both an id and a title.
pub open spec fn is_complete_list(g: GoogleTaskList) -> bool {
    g.id is Some && g.title is Some
}

pub open spec fn complete_records(records: Seq<GoogleTask>) -> Seq<GoogleTask> {
    records.filter(|g: GoogleTask| is_complete(g))
}

pub open spec fn complete_list_records(records: Seq<GoogleTaskList>) -> Seq<GoogleTaskList> {
    records.filter(|g: GoogleTaskList| is_complete_list(g))
}

/// A record missing an id or a title never yields a task: the tasks are
/// those of the complete records, one each, in the records' order.
pub proof fn lemma_incomplete_records_dropped(records: Seq<GoogleTask>)
    ensures
        tasks_of(records) == complete_records(records).map_values(|g: GoogleTask| task_of(g)->0),
    decreases records.len(),
{
    if records.len() > 0 {
        let rest = records.drop_last();
        let last = records.last();
        lemma_incomplete_records_dropped(rest);
        reveal(Seq::filter);
        assert(complete_records(records) == if is_complete(last) {
            complete_records(rest).push(last)
        } else {
            complete_records(rest)
        });
        assert(tasks_of(records) == if task_of(last) is Some {
            tasks_of(rest) + seq![task_of(last)->0]
        } else {
            tasks_of(rest)
        });
        if is_complete(last) {
            assert(complete_records(records).map_values(|g: GoogleTask| task_of(g)->0)
                =~= complete_records(rest).map_values(|g: GoogleTask| task_of(g)->0).push(
                task_of(last)->0,
            ));
        }
    }
    assert(tasks_of(records) =~= complete_records(records).map_values(
        |g: GoogleTask| task_of(g)->0,
    ));
}

/// A tasklist record missing an id or a title never yields a tasklist: the
/// tasklists are those of the complete records, one each, in their order.
pub proof fn lemma_incomplete_tasklist_records_dropped(records: Seq<GoogleTaskList>)
    ensures
        tasklist_headers_of(records) == complete_list_records(records).map_values(
            |g: GoogleTaskList| (g.id->0, g.title->0),
        ),
    decreases records.len(),
{
    if records.len() > 0 {
        let rest = records.drop_last();
        let last = records.last();
        lemma_incomplete_tasklist_records_dropped(rest);
        reveal(Seq::filter);
        assert(complete_list_records(records) == if is_complete_list(last) {
            complete_list_records(rest).push(last)
        } else {
            complete_list_records(rest)
        });
        assert(tasklist_headers_of(records) == if tasklist_header_of(last) is Some {
            tasklist_headers_of(rest) + seq![tasklist_header_of(last)->0]
        } else {
            tasklist_headers_of(rest)
        });
        if is_complete_list(last) {
            assert(complete_list_records(records).map_values(
                |g: GoogleTaskList| (g.id->0, g.title->0),
            ) =~= complete_list_records(rest).map_values(
                |g: GoogleTaskList| (g.id->0, g.title->0),
            ).push((last.id->0, last.title->0)));
        }
    }
    assert(tasklist_headers_of(records) =~= complete_list_records(records).map_values(
        |g: GoogleTaskList| (g.id->0, g.title->0),
    ));
}

/// Maps a wire status to a status.
pub fn status_from_wire(wire: &Option<String>) -> (r: Status)
    ensures
        r == status_of(*wire),
{
    match wire {
        Some(s) => {
            if *s == String::from_str(NEEDS_ACTION) {
                Status::Todo
            } else if *s == String::from_str(COMPLETED) {
                Status::Done
            } else {
                Status::Unknown
            }
        },
        None => Status::Unknown,
    }
}

/// Converts one record; `None` where it lacks an id or a title.
pub fn gtask_to_task(gtask: &GoogleTask) -> (r: Option<Task>)
    ensures
        r == task_of(*gtask),
{
    match (&gtask.id, &gtask.title) {
        (Some(id), Some(title)) => Some(
            Task {
                id: id.clone(),
                status: status_from_wire(&gtask.status),
                title: title.clone(),
                due: match &gtask.due {
                    Some(d) => parse_due(d.as_str()),
                    None => None,
                },
                notes: copy_text(&gtask.notes),
            },
        ),
        _ => None,
    }
}

/// Converts records into tasks, dropping those that lack an id or a title
/// and keeping the order of the others.
pub fn tasks_from_records(records: &Vec<GoogleTask>) -> (r: Vec<Task>)
    ensures
        r@ == tasks_of(records@),
{
    let mut tasks: Vec<Task> = Vec::new();
    let mut i: usize = 0;
    while i < records.len()
        invariant
            i <= records@.len(),
            tasks@ == tasks_of(records@.subrange(0, i as int)),
        decreases records@.len() - i,
    {
        let ghost prefix = records@.subrange(0, i + 1);
        assert(prefix.drop_last() =~= records@.subrange(0, i as int));
        assert(prefix.last() == records@[i as int]);
        match gtask_to_task(&records[i]) {
            Some(t) => {
                tasks.push(t);
                assert(tasks@ =~= tasks_of(prefix));
            },
            None => {},
        }
        i += 1;
    }
    assert(records@.subrange(0, records@.len() as int) =~= records@);
    tasks
}

/// Converts records into tasklists without tasks, dropping those that lack
/// an id or a title and keeping the order of the others.
pub fn tasklists_from_records(records: &Vec<GoogleTaskList>) -> (r: Vec<Tasklist>)
    ensures
        lists_match_headers(r@, tasklist_headers_of(records@)),
{
    let mut lists: Vec<Tasklist> = Vec::new();
    let mut i: usize = 0;
    while i < records.len()
        invariant
            i <= records@.len(),
            lists_match_headers(lists@, tasklist_headers_of(records@.subrange(0, i as int))),
        decreases records@.len() - i,
    {
        let ghost prefix = records@.subrange(0, i + 1);
        assert(prefix.drop_last() =~= records@.subrange(0, i as int));
        assert(prefix.last() == records@[i as int]);
        match (&records[i].id, &records[i].title) {
            (Some(id), Some(title)) => {
                lists.push(Tasklist { id: id.clone(), title: title.clone(), tasks: Vec::new() });
                assert(tasklist_headers_of(prefix) =~= tasklist_headers_of(
                    records@.subrange(0, i as int),
                ).push((*id, *title)));
            },
            _ => {},
        }
        i += 1;
    }
    assert(records@.subrange(0, records@.len() as int) =~= records@);
    lists
}

/// The wire value of a status; an unrecognized status has none, and the
/// field is left out of the write.
pub open spec fn status_wire(s: Status) -> Option<Seq<char>> {
    match s {
        Status::Todo => Some(NEEDS_ACTION@),
        Status::Done => Some(COMPLETED@),
        Status::Unknown => None,
    }
}

/// A due date in the wire encoding, with the sentinels that mark a date
/// alone and a time of day alone.
pub open spec fn due_wire(ts: TimestampType) -> Seq<char> {
    match ts {
        TimestampType::Date(d) => iso_date(d) + DATE_SENTINEL@,
        TimestampType::Time(t) => TIME_SENTINEL@ + clock(t) + ".000Z"@,
        TimestampType::DateTime(d, t) => iso_date(d) + "T"@ + clock(t) + ".000Z"@,
    }
}

/// Maps a status to its wire value.
pub fn status_to_wire(status: Status) -> (r: Option<String>)
    ensures
        r is Some <==> status_wire(status) is Some,
        r matches Some(s) ==> s@ == status_wire(status)->0,
{
    match status {
        Status::Todo => Some(String::from_str(NEEDS_ACTION)),
        Status::Done => Some(String::from_str(COMPLETED)),
        Status::Unknown => None,
    }
}

/// Encodes a due date for the wire.
pub fn due_to_wire(due: &TimestampType) -> (r: String)
    requires
        due.wf(),
    ensures
        r@ == due_wire(*due),
{
    match due {
        TimestampType::Date(d) => {
            let mut s = date_text(*d);
            s.append(DATE_SENTINEL);
            s
        },
        TimestampType::Time(t) => {
            let mut s = String::from_str(TIME_SENTINEL);
            let c = clock_text(*t);
            s.append(c.as_str());
            s.append(".000Z");
            s
        },
        TimestampType::DateTime(d, t) => {
            let mut s = date_text(*d);
            s.append("T");
            let c = clock_text(*t);
            s.append(c.as_str());
            s.append(".000Z");
            s
        },
    }
}

/// The record that writes `task` back to the remote service.
pub fn task_to_gtask(task: &Task) -> (r: GoogleTask)
    requires
        task.due matches Some(d) ==> d.wf(),
    ensures
        r.id == Some(task.id),
        r.title == Some(task.title),
        r.status is Some <==> status_wire(task.status) is Some,
        r.status matches Some(s) ==> s@ == status_wire(task.status)->0,
        r.due is Some <==> task.due is Some,
        r.due matches Some(d) ==> d@ == due_wire(task.due->0),
        r.notes == task.notes,
{
    GoogleTask {
        id: Some(task.id.clone()),
        status: status_to_wire(task.status),
        title: Some(task.title.clone()),
        due: match &task.due {
            Some(d) => Some(due_to_wire(d)),
            None => None,
        },
        notes: copy_text(&task.notes),
    }
}

/// The tasklists loaded from Google Tasks.
#[derive(Debug)]
pub struct GoogleTasksProvider {
    tasklists: Vec<Tasklist>,
}

impl GoogleTasksProvider {
    pub fn new(tasklists: Vec<Tasklist>) -> (r: Self)
        ensures
            r.tasklists_spec() == tasklists@,
    {
        GoogleTasksProvider { tasklists }
    }

    /// Replaces the tasks of tasklist `id` by those that freshly loaded
    /// records stand for.
    pub fn load_tasklist(&mut self, id: &str, records: &Vec<GoogleTask>) -> (r: Result<(), ProviderError>)
        ensures
            match id_position(tasklist_ids(old(self).tasklists_spec()), id@) {
                None => r == Err::<(), ProviderError>(ProviderError::NotFound)
                    && final(self).tasklists_spec() == old(self).tasklists_spec(),
                Some(i) => r is Ok && tasks_replaced(
                    old(self).tasklists_spec(),
                    final(self).tasklists_spec(),
                    i,
                    tasks_of(records@),
                ),
            },
    {
        let tasks = tasks_from_records(records);
        self.replace_tasks(id, tasks)
    }
}

impl Provider for GoogleTasksProvider {
    closed spec fn tasklists_spec(&self) -> Seq<Tasklist> {
        self.tasklists@
    }

    fn get_tasklists(&self) -> (r: &Vec<Tasklist>) {
        &self.tasklists
    }

    fn replace_tasks(&mut self, tasklist_id: &str, tasks: Vec<Task>) -> (r: Result<(), ProviderError>) {
        match tasklist_position(&self.tasklists, tasklist_id) {
            None => Err(ProviderError::NotFound),
            Some(i) => {
                let list = Tasklist {
                    id: self.tasklists[i].id.clone(),
                    title: self.tasklists[i].title.clone(),
                    tasks,
                };
                self.tasklists.set(i, list);
                Ok(())
            },
        }
    }
}

} // verus!
