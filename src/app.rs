//! Application state: the active tasklist, the selected task, and the
//! decisions behind navigation and status toggling.
use vstd::prelude::*;
use vstd::arithmetic::div_mod::{
    lemma_add_mod_noop, lemma_mod_add_multiples_vanish, lemma_mod_self_0, lemma_small_mod,
    lemma_sub_mod_noop,
};
use crate::provider::{id_position, tasklist_ids, tasks_replaced, Provider, ProviderError};
use crate::task::{copy_text, Status, Task, Tasklist};

verus! {

/// Why an application operation failed.
#[derive(Clone, Copy, Debug, PartialEq, Eq, Structural)]
pub enum AppError {
    /// No tasklist is active, or no task of it is selected.
    NoActiveTask,
    /// The backend failed.
    Provider(ProviderError),
}

/// A task to write to the backend: the new value of a task of a tasklist.
#[derive(Debug)]
pub struct TaskUpdate {
    pub tasklist_id: String,
    pub task: Task,
}

/// A key the user pressed, as far as the client tells keys apart.
#[derive(Clone, Copy, Debug, PartialEq, Eq, Structural)]
pub enum Key {
    Char(char),
    Left,
    Right,
    Up,
    Down,
    Enter,
    Other,
}

/// What the user asks for.
#[derive(Clone, Copy, Debug, PartialEq, Eq, Structural)]
pub enum Command {
    Quit,
    NextTasklist,
    PreviousTasklist,
    NextTask,
    PreviousTask,
    ToggleStatus,
}

/// The command bound to a key: `q` quits, `l`/`h` or right/left switch
/// tasklists, `j`/`k` or down/up move the selection, enter toggles.
pub open spec fn command_spec(key: Key) -> Option<Command> {
    match key {
        Key::Char('q') => Some(Command::Quit),
        Key::Char('l') | Key::Right => Some(Command::NextTasklist),
        Key::Char('h') | Key::Left => Some(Command::PreviousTasklist),
        Key::Char('j') | Key::Down => Some(Command::NextTask),
        Key::Char('k') | Key::Up => Some(Command::PreviousTask),
        Key::Enter => Some(Command::ToggleStatus),
        _ => None,
    }
}

pub fn command_of_key(key: Key) -> (r: Option<Command>)
    ensures
        r == command_spec(key),
{
    match key {
        Key::Char('q') => Some(Command::Quit),
        Key::Char('l') | Key::Right => Some(Command::NextTasklist),
        Key::Char('h') | Key::Left => Some(Command::PreviousTasklist),
        Key::Char('j') | Key::Down => Some(Command::NextTask),
        Key::Char('k') | Key::Up => Some(Command::PreviousTask),
        Key::Enter => Some(Command::ToggleStatus),
        _ => None,
    }
}

/// The tasklist index after moving forward among `n` tasklists.
pub open spec fn next_tasklist_index(a: int, n: int) -> int {
    (a + 1) % n
}

/// The tasklist index after moving back among `n` tasklists.
pub open spec fn previous_tasklist_index(a: int, n: int) -> int {
    if a > 0 {
        a - 1
    } else {
        n - 1
    }
}

/// The selection after moving forward in the active tasklist, given its
/// task count (`None` where no tasklist is active).
pub open spec fn next_selection(sel: Option<usize>, count: Option<int>) -> Option<usize> {
    match count {
        None => None,
        Some(n) => if n == 0 {
            None
        } else {
            match sel {
                Some(i) => if i + 1 >= n {
                    Some(0usize)
                } else {
                    Some((i + 1) as usize)
                },
                None => Some(0usize),
            }
        },
    }
}

/// The selection after moving back in the active tasklist, given its task
/// count (`None` where no tasklist is active).
pub open spec fn previous_selection(sel: Option<usize>, count: Option<int>) -> Option<usize> {
    match count {
        None => None,
        Some(n) => if n == 0 {
            None
        } else {
            match sel {
                Some(i) => if i == 0 {
                    Some((n - 1) as usize)
                } else {
                    Some((i - 1) as usize)
                },
                None => Some(0usize),
            }
        },
    }
}

/// The task with its status toggled.
pub open spec fn toggled_task(t: Task) -> Task {
    Task { id: t.id, status: t.status.toggled_spec(), title: t.title, due: t.due, notes: t.notes }
}

/// One step forward in arithmetic modulo `n`.
proof fn lemma_mod_step(x: int, n: int)
    requires
        n > 0,
    ensures
        (x + 1) % n == if x % n + 1 == n {
            0
        } else {
            x % n + 1
        },
{
    lemma_add_mod_noop(x, 1, n);
    if n == 1 {
        lemma_mod_self_0(1);
        lemma_small_mod(0, 1);
    } else {
        lemma_small_mod(1, n as nat);
        if x % n + 1 < n {
            lemma_small_mod((x % n + 1) as nat, n as nat);
        } else {
            lemma_mod_self_0(n);
        }
    }
}

/// One step back in arithmetic modulo `n`.
proof fn lemma_mod_step_back(x: int, n: int)
    requires
        n > 0,
    ensures
        (x - 1) % n == if x % n == 0 {
            n - 1
        } else {
            x % n - 1
        },
{
    lemma_sub_mod_noop(x, 1, n);
    if n == 1 {
        lemma_mod_self_0(1);
        lemma_small_mod(0, 1);
    } else {
        lemma_small_mod(1, n as nat);
        if x % n >= 1 {
            lemma_small_mod((x % n - 1) as nat, n as nat);
        } else {
            lemma_mod_add_multiples_vanish(-1, n);
            lemma_small_mod((n - 1) as nat, n as nat);
        }
    }
}

/// The tasklist index after `k` moves forward among `n` tasklists from `a`.
pub open spec fn tasklist_after_nexts(a: int, n: int, k: nat) -> int
    decreases k,
{
    if k == 0 {
        a
    } else {
        next_tasklist_index(tasklist_after_nexts(a, n, (k - 1) as nat), n)
    }
}

/// The selection after `k` moves forward in a tasklist of `count` tasks.
pub open spec fn selection_after_nexts(sel: Option<usize>, count: Option<int>, k: nat) -> Option<usize>
    decreases k,
{
    if k == 0 {
        sel
    } else {
        next_selection(selection_after_nexts(sel, count, (k - 1) as nat), count)
    }
}

/// The selection after `k` moves back in a tasklist of `count` tasks.
pub open spec fn selection_after_previouses(sel: Option<usize>, count: Option<int>, k: nat) -> Option<usize>
    decreases k,
{
    if k == 0 {
        sel
    } else {
        previous_selection(selection_after_previouses(sel, count, (k - 1) as nat), count)
    }
}

proof fn lemma_tasklist_after_nexts(a: int, n: int, k: nat)
    requires
        0 <= a < n,
    ensures
        tasklist_after_nexts(a, n, k) == (a + k) % n,
    decreases k,
{
    if k == 0 {
        lemma_small_mod(a as nat, n as nat);
    } else {
        lemma_tasklist_after_nexts(a, n, (k - 1) as nat);
        let r = (a + k - 1) % n;
        lemma_small_mod(r as nat, n as nat);
        lemma_mod_step(a + k - 1, n);
        lemma_mod_step(r, n);
    }
}

proof fn lemma_selection_after_nexts(i: int, n: int, k: nat)
    requires
        0 <= i < n <= usize::MAX,
    ensures
        selection_after_nexts(Some(i as usize), Some(n), k) == Some(((i + k) % n) as usize),
    decreases k,
{
    if k == 0 {
        lemma_small_mod(i as nat, n as nat);
    } else {
        lemma_selection_after_nexts(i, n, (k - 1) as nat);
        lemma_mod_step(i + k - 1, n);
    }
}

proof fn lemma_selection_after_previouses(i: int, n: int, k: nat)
    requires
        0 <= i < n <= usize::MAX,
    ensures
        selection_after_previouses(Some(i as usize), Some(n), k) == Some(((i - k) % n) as usize),
    decreases k,
{
    if k == 0 {
        lemma_small_mod(i as nat, n as nat);
    } else {
        lemma_selection_after_previouses(i, n, (k - 1) as nat);
        lemma_mod_step_back(i - k + 1, n);
    }
}

/// Moving to the next tasklist as many times as there are tasklists comes
/// back to the tasklist one started from.
pub proof fn lemma_tasklists_next_cycle(a: int, n: int)
    requires
        0 <= a < n,
    ensures
        tasklist_after_nexts(a, n, n as nat) == a,
{
    lemma_tasklist_after_nexts(a, n, n as nat);
    lemma_mod_add_multiples_vanish(a, n);
    lemma_small_mod(a as nat, n as nat);
}

/// Moving to the next task as many times as the active tasklist has tasks
/// comes back to the task one started from.
pub proof fn lemma_tasks_next_cycle(i: usize, n: int)
    requires
        i < n <= usize::MAX,
    ensures
        selection_after_nexts(Some(i), Some(n), n as nat) == Some(i),
{
    lemma_selection_after_nexts(i as int, n, n as nat);
    lemma_mod_add_multiples_vanish(i as int, n);
    lemma_small_mod(i as nat, n as nat);
}

/// Moving to the previous task as many times as the active tasklist has
/// tasks comes back to the task one started from.
pub proof fn lemma_tasks_previous_cycle(i: usize, n: int)
    requires
        i < n <= usize::MAX,
    ensures
        selection_after_previouses(Some(i), Some(n), n as nat) == Some(i),
{
    lemma_selection_after_previouses(i as int, n, n as nat);
    lemma_small_mod(i as nat, n as nat);
    assert((i - n) % n == (n + (i - n)) % n) by {
        lemma_mod_add_multiples_vanish(i - n, n);
    }
}

/// The state of the interactive client over one backend.
#[derive(Debug)]
pub struct App<P> {
    pub should_quit: bool,
    pub provider: P,
    /// Index of the active tasklist among the provider's tasklists.
    pub active_tasklist: usize,
    /// Index of the selected task in the active tasklist.
    pub selection: Option<usize>,
}

impl<P: Provider> App<P> {
    /// The active tasklist, if its index is in range.
    pub open spec fn active_list(&self) -> Option<Tasklist> {
        let lists = self.provider.tasklists_spec();
        if self.active_tasklist < lists.len() {
            Some(lists[self.active_tasklist as int])
        } else {
            None
        }
    }

    /// The number of tasks of the active tasklist.
    pub open spec fn active_count(&self) -> Option<int> {
        match self.active_list() {
            Some(l) => Some(l.tasks@.len() as int),
            None => None,
        }
    }

    /// The active tasklist and its selected task.
    pub open spec fn active_task_spec(&self) -> Option<(Tasklist, Task)> {
        match (self.active_list(), self.selection) {
            (Some(l), Some(i)) => if i < l.tasks@.len() {
                Some((l, l.tasks@[i as int]))
            } else {
                None
            },
            _ => None,
        }
    }

    /// `after` is this state with the next tasklist active, or this state
    /// itself where there is no tasklist.
    pub open spec fn tasklist_moved_next(self, after: Self) -> bool {
        let n = self.provider.tasklists_spec().len();
        &&& after.should_quit == self.should_quit
        &&& after.provider == self.provider
        &&& n == 0 ==> after == self
        &&& n > 0 ==> after.active_tasklist == next_tasklist_index(self.active_tasklist as int, n as int)
            && after.selection is None
    }

    /// `after` is this state with the previous tasklist active, or this state
    /// itself where there is no tasklist.
    pub open spec fn tasklist_moved_previous(self, after: Self) -> bool {
        let n = self.provider.tasklists_spec().len();
        &&& after.should_quit == self.should_quit
        &&& after.provider == self.provider
        &&& n == 0 ==> after == self
        &&& n > 0 ==> after.active_tasklist == previous_tasklist_index(
            self.active_tasklist as int,
            n as int,
        ) && after.selection is None
    }

    /// `after` is this state with the selection given.
    pub open spec fn selected(self, after: Self, selection: Option<usize>) -> bool {
        &&& after.should_quit == self.should_quit
        &&& after.provider == self.provider
        &&& after.active_tasklist == self.active_tasklist
        &&& after.selection == selection
    }

    /// What carrying out `command` from this state leads to.
    pub open spec fn command_outcome(self, after: Self, command: Command, r: Result<Option<TaskUpdate>, AppError>) -> bool {
        match command {
            Command::Quit => r == Ok::<Option<TaskUpdate>, AppError>(None) && after == (App {
                should_quit: true,
                ..self
            }),
            Command::NextTasklist => r == Ok::<Option<TaskUpdate>, AppError>(None)
                && self.tasklist_moved_next(after),
            Command::PreviousTasklist => r == Ok::<Option<TaskUpdate>, AppError>(None)
                && self.tasklist_moved_previous(after),
            Command::NextTask => r == Ok::<Option<TaskUpdate>, AppError>(None) && self.selected(
                after,
                next_selection(self.selection, self.active_count()),
            ),
            Command::PreviousTask => r == Ok::<Option<TaskUpdate>, AppError>(None) && self.selected(
                after,
                previous_selection(self.selection, self.active_count()),
            ),
            Command::ToggleStatus => after == self && match self.active_task_spec() {
                None => r == Err::<Option<TaskUpdate>, AppError>(AppError::NoActiveTask),
                Some(v) => r matches Ok(Some(u)) && u.tasklist_id == v.0.id && u.task
                    == toggled_task(v.1),
            },
        }
    }

    pub fn new(provider: P) -> (r: Self)
        ensures
            !r.should_quit,
            r.provider == provider,
            r.active_tasklist == 0,
            r.selection is None,
    {
        App { should_quit: false, provider, active_tasklist: 0, selection: None }
    }

    /// Periodic work between input events; there is none.
    pub fn on_tick(&mut self)
        ensures
            *final(self) == *old(self),
    {
    }

    pub fn quit(&mut self)
        ensures
            *final(self) == (App { should_quit: true, ..*old(self) }),
    {
        self.should_quit = true;
    }

    /// Moves to the next tasklist, cyclically, and clears the selection; does
    /// nothing where there is no tasklist.
    pub fn tasklists_next(&mut self)
        ensures
            old(self).tasklist_moved_next(*final(self)),
    {
        let n = self.provider.len();
        if n == 0 {
            return;
        }
        let a = self.active_tasklist % n;
        proof {
            lemma_mod_step(self.active_tasklist as int, n as int);
        }
        self.active_tasklist = if a + 1 == n {
            0
        } else {
            a + 1
        };
        self.selection = None;
    }

    /// Moves to the previous tasklist, cyclically, and clears the selection;
    /// does nothing where there is no tasklist.
    pub fn tasklists_previous(&mut self)
        ensures
            old(self).tasklist_moved_previous(*final(self)),
    {
        let n = self.provider.len();
        if n == 0 {
            return;
        }
        self.selection = None;
        if self.active_tasklist > 0 {
            self.active_tasklist = self.active_tasklist - 1;
        } else {
            self.active_tasklist = n - 1;
        }
    }

    pub fn active_tasklist(&self) -> (r: Option<&Tasklist>)
        ensures
            r is None <==> self.active_list() is None,
            r matches Some(l) ==> self.active_list() == Some(*l),
    {
        self.provider.get_nth_tasklist(self.active_tasklist)
    }

    /// Selects the next task of the active tasklist, cyclically; the first
    /// where none is selected.
    pub fn tasks_next(&mut self)
        ensures
            old(self).selected(*final(self), next_selection(old(self).selection, old(self).active_count())),
    {
        let sel = match self.active_tasklist() {
            Some(list) => {
                let n = list.len();
                if n == 0 {
                    None
                } else {
                    match self.selection {
                        Some(i) => if i >= n - 1 {
                            Some(0)
                        } else {
                            Some(i + 1)
                        },
                        None => Some(0),
                    }
                }
            },
            None => None,
        };
        self.selection = sel;
    }

    /// Selects the previous task of the active tasklist, cyclically; the
    /// first where none is selected.
    pub fn tasks_previous(&mut self)
        ensures
            old(self).selected(
                *final(self),
                previous_selection(old(self).selection, old(self).active_count()),
            ),
    {
        let sel = match self.active_tasklist() {
            Some(list) => {
                let n = list.len();
                if n == 0 {
                    None
                } else {
                    match self.selection {
                        Some(i) => if i == 0 {
                            Some(n - 1)
                        } else {
                            Some(i - 1)
                        },
                        None => Some(0),
                    }
                }
            },
            None => None,
        };
        self.selection = sel;
    }

    /// The selected task of the active tasklist.
    pub fn active_task(&self) -> (r: Option<&Task>)
        ensures
            r is None <==> self.active_task_spec() is None,
            r matches Some(t) ==> self.active_task_spec() matches Some(v) && v.1 == *t,
    {
        match self.active_tasklist() {
            Some(list) => match self.selection {
                Some(i) => list.get(i),
                None => None,
            },
            None => None,
        }
    }

    /// Decides the write that toggles the selected task: the same task with
    /// Todo and Done swapped (Unknown kept), in the active tasklist.
    pub fn toggle_task_state(&self) -> (r: Result<TaskUpdate, AppError>)
        ensures
            match self.active_task_spec() {
                None => r == Err::<TaskUpdate, AppError>(AppError::NoActiveTask),
                Some(v) => r matches Ok(u) && u.tasklist_id == v.0.id && u.task == toggled_task(
                    v.1,
                ),
            },
    {
        let list = match self.active_tasklist() {
            Some(l) => l,
            None => return Err(AppError::NoActiveTask),
        };
        let task = match self.active_task() {
            Some(t) => t,
            None => return Err(AppError::NoActiveTask),
        };
        Ok(
            TaskUpdate {
                tasklist_id: list.id.clone(),
                task: Task {
                    id: task.id.clone(),
                    status: task.status.toggled(),
                    title: task.title.clone(),
                    due: task.due,
                    notes: copy_text(&task.notes),
                },
            },
        )
    }

    /// Takes in the tasks of tasklist `tasklist_id` as reloaded after a
    /// write, and clears the selection.
    pub fn finish_update(&mut self, tasklist_id: &str, tasks: Vec<Task>) -> (r: Result<(), AppError>)
        ensures
            final(self).should_quit == old(self).should_quit,
            final(self).active_tasklist == old(self).active_tasklist,
            match id_position(tasklist_ids(old(self).provider.tasklists_spec()), tasklist_id@) {
                None => r == Err::<(), AppError>(AppError::Provider(ProviderError::NotFound))
                    && final(self).provider.tasklists_spec() == old(
                    self,
                ).provider.tasklists_spec() && final(self).selection == old(self).selection,
                Some(i) => r is Ok && final(self).selection is None && tasks_replaced(
                    old(self).provider.tasklists_spec(),
                    final(self).provider.tasklists_spec(),
                    i,
                    tasks@,
                ),
            },
    {
        match self.provider.replace_tasks(tasklist_id, tasks) {
            Ok(()) => {
                self.selection = None;
                Ok(())
            },
            Err(e) => Err(AppError::Provider(e)),
        }
    }

    /// Carries out a command. Toggling changes nothing here: it returns the
    /// write for the caller to send, after which `finish_update` takes in the
    /// reloaded tasks.
    pub fn on_command(&mut self, command: Command) -> (r: Result<Option<TaskUpdate>, AppError>)
        ensures
            old(self).command_outcome(*final(self), command, r),
    {
        match command {
            Command::Quit => {
                self.quit();
                Ok(None)
            },
            Command::NextTasklist => {
                self.tasklists_next();
                Ok(None)
            },
            Command::PreviousTasklist => {
                self.tasklists_previous();
                Ok(None)
            },
            Command::NextTask => {
                self.tasks_next();
                Ok(None)
            },
            Command::PreviousTask => {
                self.tasks_previous();
                Ok(None)
            },
            Command::ToggleStatus => match self.toggle_task_state() {
                Ok(u) => Ok(Some(u)),
                Err(e) => Err(e),
            },
        }
    }
}

} // verus!
