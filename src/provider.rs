//! The capability interface of a task backend, and lookups over what it holds.
use vstd::prelude::*;
use crate::task::{Task, Tasklist};

verus! {

/// Why a backend operation failed.
#[derive(Clone, Copy, Debug, PartialEq, Eq, Structural)]
pub enum ProviderError {
    /// The remote service could not be reached or refused the request.
    RemoteError,
    /// The operation names a tasklist that is not held.
    NotFound,
}

/// Index of the first entry of `ids` equal to `id`.
pub open spec fn id_position(ids: Seq<Seq<char>>, id: Seq<char>) -> Option<int>
    decreases ids.len(),
{
    if ids.len() == 0 {
        None
    } else {
        match id_position(ids.drop_last(), id) {
            Some(i) => Some(i),
            None => if ids.last() == id {
                Some(ids.len() - 1)
            } else {
                None
            },
        }
    }
}

pub open spec fn tasklist_ids(lists: Seq<Tasklist>) -> Seq<Seq<char>> {
    lists.map_values(|t: Tasklist| t.id@)
}

pub open spec fn task_ids(tasks: Seq<Task>) -> Seq<Seq<char>> {
    tasks.map_values(|t: Task| t.id@)
}

/// The first tasklist with the given id.
pub open spec fn find_tasklist(lists: Seq<Tasklist>, id: Seq<char>) -> Option<Tasklist> {
    match id_position(tasklist_ids(lists), id) {
        Some(i) => Some(lists[i]),
        None => None,
    }
}

/// The first task with the given id.
pub open spec fn find_task(tasks: Seq<Task>, id: Seq<char>) -> Option<Task> {
    match id_position(task_ids(tasks), id) {
        Some(i) => Some(tasks[i]),
        None => None,
    }
}

/// A position found in a prefix is the position in the whole sequence.
pub proof fn lemma_id_position_prefix(ids: Seq<Seq<char>>, id: Seq<char>, k: int)
    requires
        0 <= k <= ids.len(),
        id_position(ids.subrange(0, k), id) is Some,
    ensures
        id_position(ids, id) == id_position(ids.subrange(0, k), id),
    decreases ids.len(),
{
    if k < ids.len() {
        assert(ids.drop_last().subrange(0, k) =~= ids.subrange(0, k));
        lemma_id_position_prefix(ids.drop_last(), id, k);
    } else {
        assert(ids.subrange(0, k) =~= ids);
    }
}

/// Finds the first tasklist with the given id.
pub fn tasklist_position(lists: &Vec<Tasklist>, id: &str) -> (r: Option<usize>)
    ensures
        r matches Some(i) ==> id_position(tasklist_ids(lists@), id@) == Some(i as int) && i
            < lists@.len(),
        r is None ==> id_position(tasklist_ids(lists@), id@) is None,
{
    let ghost ids = tasklist_ids(lists@);
    let target = String::from_str(id);
    let mut i: usize = 0;
    while i < lists.len()
        invariant
            i <= lists@.len(),
            ids == tasklist_ids(lists@),
            target@ == id@,
            id_position(ids.subrange(0, i as int), id@) is None,
        decreases lists@.len() - i,
    {
        assert(ids.subrange(0, i + 1).drop_last() =~= ids.subrange(0, i as int));
        if lists[i].id == target {
            proof {
                lemma_id_position_prefix(ids, id@, i + 1);
            }
            return Some(i);
        }
        i += 1;
    }
    assert(ids.subrange(0, i as int) =~= ids);
    None
}

/// Finds the first task with the given id.
pub fn task_position(tasks: &Vec<Task>, id: &str) -> (r: Option<usize>)
    ensures
        r matches Some(i) ==> id_position(task_ids(tasks@), id@) == Some(i as int) && i
            < tasks@.len(),
        r is None ==> id_position(task_ids(tasks@), id@) is None,
{
    let ghost ids = task_ids(tasks@);
    let target = String::from_str(id);
    let mut i: usize = 0;
    while i < tasks.len()
        invariant
            i <= tasks@.len(),
            ids == task_ids(tasks@),
            target@ == id@,
            id_position(ids.subrange(0, i as int), id@) is None,
        decreases tasks@.len() - i,
    {
        assert(ids.subrange(0, i + 1).drop_last() =~= ids.subrange(0, i as int));
        if tasks[i].id == target {
            proof {
                lemma_id_position_prefix(ids, id@, i + 1);
            }
            return Some(i);
        }
        i += 1;
    }
    assert(ids.subrange(0, i as int) =~= ids);
    None
}

/// `after` is `before` with the tasks of entry `i` replaced by `tasks`.
pub open spec fn tasks_replaced(before: Seq<Tasklist>, after: Seq<Tasklist>, i: int, tasks: Seq<Task>) -> bool {
    &&& after.len() == before.len()
    &&& forall|j: int| 0 <= j < before.len() && j != i ==> after[j] == before[j]
    &&& after[i].id == before[i].id
    &&& after[i].title == before[i].title
    &&& after[i].tasks@ == tasks
}

/// A backend that owns tasklists and tasks. The lookups read what it holds
/// and do no I/O.
pub trait Provider {
    /// The tasklists held, in the backend's order.
    spec fn tasklists_spec(&self) -> Seq<Tasklist>;

    fn get_tasklists(&self) -> (r: &Vec<Tasklist>)
        ensures
            r@ == self.tasklists_spec(),
    ;

    /// Replaces the tasks of the first tasklist with id `tasklist_id` by
    /// `tasks`, the version freshly loaded from the backend.
    fn replace_tasks(&mut self, tasklist_id: &str, tasks: Vec<Task>) -> (r: Result<(), ProviderError>)
        ensures
            match id_position(tasklist_ids(old(self).tasklists_spec()), tasklist_id@) {
                None => r == Err::<(), ProviderError>(ProviderError::NotFound)
                    && final(self).tasklists_spec() == old(self).tasklists_spec(),
                Some(i) => r is Ok && tasks_replaced(
                    old(self).tasklists_spec(),
                    final(self).tasklists_spec(),
                    i,
                    tasks@,
                ),
            },
    ;

    fn len(&self) -> (r: usize)
        ensures
            r == self.tasklists_spec().len(),
    {
        self.get_tasklists().len()
    }

    fn get_tasklist(&self, tasklist_id: &str) -> (r: Option<&Tasklist>)
        ensures
            r is None <==> find_tasklist(self.tasklists_spec(), tasklist_id@) is None,
            r matches Some(t) ==> find_tasklist(self.tasklists_spec(), tasklist_id@) == Some(*t),
    {
        let lists = self.get_tasklists();
        match tasklist_position(lists, tasklist_id) {
            Some(i) => Some(&lists[i]),
            None => None,
        }
    }

    fn get_nth_tasklist(&self, n: usize) -> (r: Option<&Tasklist>)
        ensures
            r == (if n < self.tasklists_spec().len() {
                Some(&self.tasklists_spec()[n as int])
            } else {
                None
            }),
    {
        let lists = self.get_tasklists();
        if n < lists.len() {
            Some(&lists[n])
        } else {
            None
        }
    }

    fn get_task(&self, tasklist_id: &str, task_id: &str) -> (r: Option<&Task>)
        ensures
            r is None <==> (match find_tasklist(self.tasklists_spec(), tasklist_id@) {
                Some(l) => find_task(l.tasks@, task_id@) is None,
                None => true,
            }),
            r matches Some(t) ==> find_tasklist(self.tasklists_spec(), tasklist_id@) matches Some(
                l,
            ) && find_task(l.tasks@, task_id@) == Some(*t),
    {
        match self.get_tasklist(tasklist_id) {
            Some(list) => match task_position(&list.tasks, task_id) {
                Some(i) => Some(&list.tasks[i]),
                None => None,
            },
            None => None,
        }
    }
}

} // verus!
