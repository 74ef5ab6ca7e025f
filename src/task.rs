//! Tasks, their completion status, and tasklists.
use vstd::prelude::*;
use crate::timestamps::TimestampType;

verus! {

/// Completion state of a task; `Unknown` stands for a backend value that is
/// not recognized.
#[derive(Clone, Copy, Debug, PartialEq, Eq, Structural)]
pub enum Status {
    Todo,
    Done,
    Unknown,
}

impl Status {
    /// Todo and Done swap; Unknown stays.
    pub open spec fn toggled_spec(self) -> Status {
        match self {
            Status::Todo => Status::Done,
            Status::Done => Status::Todo,
            Status::Unknown => Status::Unknown,
        }
    }

    /// The status after the user toggles completion.
    pub fn toggled(self) -> (r: Status)
        ensures
            r == self.toggled_spec(),
    {
        match self {
            Status::Todo => Status::Done,
            Status::Done => Status::Todo,
            Status::Unknown => Status::Unknown,
        }
    }
}

/// Toggling twice gives back the status toggled, and an unrecognized status
/// is left as it is.
pub proof fn lemma_toggle_involution(s: Status)
    ensures
        s.toggled_spec().toggled_spec() == s,
        s == Status::Unknown ==> s.toggled_spec() == s,
{
}

/// One to-do item.
#[derive(Debug)]
pub struct Task {
    /// Assigned by the backend; unique within the task's list.
    pub id: String,
    pub status: Status,
    pub title: String,
    pub due: Option<TimestampType>,
    pub notes: Option<String>,
}

pub(crate) fn copy_text(s: &Option<String>) -> (r: Option<String>)
    ensures
        r == *s,
{
    match s {
        Some(t) => Some(t.clone()),
        None => None,
    }
}

impl Clone for Task {
    fn clone(&self) -> (r: Self)
        ensures
            r == *self,
    {
        Task {
            id: self.id.clone(),
            status: self.status,
            title: self.title.clone(),
            due: self.due,
            notes: copy_text(&self.notes),
        }
    }
}

impl Task {
    pub fn new(
        id: &str,
        status: Status,
        title: &str,
        due: Option<TimestampType>,
        notes: Option<&str>,
    ) -> (r: Self)
        ensures
            r.id@ == id@,
            r.status == status,
            r.title@ == title@,
            r.due == due,
            r.notes is Some <==> notes is Some,
            r.notes matches Some(n) ==> n@ == notes->0@,
    {
        Task {
            id: String::from_str(id),
            status,
            title: String::from_str(title),
            due,
            notes: match notes {
                Some(n) => Some(String::from_str(n)),
                None => None,
            },
        }
    }
}

/// A named, ordered list of tasks, in the order the backend gave them.
#[derive(Debug)]
pub struct Tasklist {
    /// Assigned by the backend; unique across it.
    pub id: String,
    pub title: String,
    pub tasks: Vec<Task>,
}

impl Tasklist {
    pub fn new(id: String, title: String, tasks: &[Task]) -> (r: Self)
        ensures
            r.id == id,
            r.title == title,
            r.tasks@ == tasks@,
    {
        let mut copied: Vec<Task> = Vec::new();
        let mut i: usize = 0;
        while i < tasks.len()
            invariant
                i <= tasks@.len(),
                copied@ == tasks@.subrange(0, i as int),
            decreases tasks@.len() - i,
        {
            copied.push(tasks[i].clone());
            i += 1;
            assert(copied@ =~= tasks@.subrange(0, i as int));
        }
        assert(tasks@.subrange(0, tasks@.len() as int) =~= tasks@);
        Tasklist { id, title, tasks: copied }
    }

    pub fn len(&self) -> (r: usize)
        ensures
            r == self.tasks@.len(),
    {
        self.tasks.len()
    }

    pub fn is_empty(&self) -> (r: bool)
        ensures
            r == (self.tasks@.len() == 0),
    {
        self.tasks.len() == 0
    }

    pub fn get(&self, index: usize) -> (r: Option<&Task>)
        ensures
            r == (if index < self.tasks@.len() {
                Some(&self.tasks@[index as int])
            } else {
                None
            }),
    {
        if index < self.tasks.len() {
            Some(&self.tasks[index])
        } else {
            None
        }
    }
}

} // verus!
