//! The task queue of the planner.
//!
//! A task is created pending, runs, and ends done, failed or skipped. A
//! failed task goes back to pending as long as its retry budget lasts.

use crate::actions::parser::option_view;
use crate::clock::current_timestamp;
use crate::number::{decimal, push_decimal};
use crate::text::{from_chars, str_eq, to_chars};
use vstd::prelude::*;

verus! {

/// The status of a task.
#[derive(Debug, Clone, Copy, PartialEq, Eq, Structural)]
pub enum TodoStatus {
    /// Waiting to be run.
    Pending,
    /// Being run.
    Running,
    /// Completed.
    Done,
    /// Failed.
    Failed,
    /// Left out.
    Skipped,
}

impl Default for TodoStatus {
    fn default() -> (r: Self)
        ensures
            r == TodoStatus::Pending,
    {
        TodoStatus::Pending
    }
}

/// A task.
#[derive(Debug, Clone, PartialEq, Eq)]
pub struct TodoItem {
    /// The task's identifier.
    pub id: String,
    /// What is to be done, in natural language.
    pub description: String,
    /// The kind of task, by which prompts are remembered.
    pub task_type: String,
    /// The status.
    pub status: TodoStatus,
    /// How often the task was tried again.
    pub retry_count: u32,
    /// How often the task may be tried again.
    pub max_retries: u32,
    /// When the task was created.
    pub created_at: u64,
    /// When the task last changed.
    pub updated_at: u64,
    /// Why the task failed.
    pub error: Option<String>,
    /// Notes taken while the task ran.
    pub notes: Vec<String>,
}

/// The mathematical value of a [`TodoItem`].
pub struct TodoItemView {
    pub id: Seq<char>,
    pub description: Seq<char>,
    pub task_type: Seq<char>,
    pub status: TodoStatus,
    pub retry_count: u32,
    pub max_retries: u32,
    pub created_at: u64,
    pub updated_at: u64,
    pub error: Option<Seq<char>>,
    pub notes: Seq<Seq<char>>,
}

/// The characters of each string of `notes`.
pub open spec fn strings_view(notes: Seq<String>) -> Seq<Seq<char>> {
    notes.map_values(|s: String| s@)
}

impl View for TodoItem {
    type V = TodoItemView;

    open spec fn view(&self) -> TodoItemView {
        TodoItemView {
            id: self.id@,
            description: self.description@,
            task_type: self.task_type@,
            status: self.status,
            retry_count: self.retry_count,
            max_retries: self.max_retries,
            created_at: self.created_at,
            updated_at: self.updated_at,
            error: option_view(self.error),
            notes: strings_view(self.notes@),
        }
    }
}

impl TodoItemView {
    /// A new task, created at the time `now`: pending, never retried, with a
    /// budget of three retries.
    pub open spec fn created(
        id: Seq<char>,
        description: Seq<char>,
        task_type: Seq<char>,
        now: u64,
    ) -> TodoItemView {
        TodoItemView {
            id,
            description,
            task_type,
            status: TodoStatus::Pending,
            retry_count: 0,
            max_retries: 3,
            created_at: now,
            updated_at: now,
            error: None,
            notes: Seq::empty(),
        }
    }

    /// The task with another status, changed at the time `now`.
    pub open spec fn moved_to(self, status: TodoStatus, now: u64) -> TodoItemView {
        TodoItemView { status, updated_at: now, ..self }
    }

    /// The task after it failed for the reason `error` at the time `now`.
    pub open spec fn failed(self, error: Seq<char>, now: u64) -> TodoItemView {
        TodoItemView { status: TodoStatus::Failed, error: Some(error), updated_at: now, ..self }
    }

    /// Whether the retry budget is not used up.
    pub open spec fn can_retry(self) -> bool {
        self.retry_count < self.max_retries
    }

    /// The task after one more retry was asked for at the time `now`: the
    /// count goes up by one, and the task is pending again where the budget
    /// was not used up, failed for good otherwise.
    pub open spec fn retried(self, now: u64) -> TodoItemView {
        TodoItemView {
            retry_count: if self.retry_count < u32::MAX {
                (self.retry_count + 1) as u32
            } else {
                self.retry_count
            },
            status: if self.can_retry() {
                TodoStatus::Pending
            } else {
                TodoStatus::Failed
            },
            updated_at: now,
            ..self
        }
    }

    /// Whether the task will not run again: it is done or skipped, or it
    /// failed and its budget is used up.
    pub open spec fn is_terminal(self) -> bool {
        self.status == TodoStatus::Done || self.status == TodoStatus::Skipped || (self.status
            == TodoStatus::Failed && !self.can_retry())
    }
}

impl TodoItem {
    /// A new pending task.
    pub fn new(id: &str, description: &str, task_type: &str) -> (r: Self)
        ensures
            r@ == TodoItemView::created(id@, description@, task_type@, r.created_at),
    {
        let now = current_timestamp();
        let r = TodoItem {
            id: String::from_str(id),
            description: String::from_str(description),
            task_type: String::from_str(task_type),
            status: TodoStatus::Pending,
            retry_count: 0,
            max_retries: 3,
            created_at: now,
            updated_at: now,
            error: None,
            notes: Vec::new(),
        };
        assert(strings_view(r.notes@) =~= Seq::empty());
        r
    }

    /// The task with another retry budget.
    pub fn with_max_retries(self, max_retries: u32) -> (r: Self)
        ensures
            r@ == (TodoItemView { max_retries, ..self@ }),
    {
        let mut r = self;
        r.max_retries = max_retries;
        r
    }

    /// Marks the task as running.
    pub fn start(&mut self)
        ensures
            final(self)@ == old(self)@.moved_to(TodoStatus::Running, final(self).updated_at),
    {
        self.status = TodoStatus::Running;
        self.updated_at = current_timestamp();
    }

    /// Marks the task as done.
    pub fn complete(&mut self)
        ensures
            final(self)@ == old(self)@.moved_to(TodoStatus::Done, final(self).updated_at),
    {
        self.status = TodoStatus::Done;
        self.updated_at = current_timestamp();
    }

    /// Marks the task as failed for the reason `error`.
    pub fn fail(&mut self, error: &str)
        ensures
            final(self)@ == old(self)@.failed(error@, final(self).updated_at),
    {
        self.error = Some(String::from_str(error));
        self.status = TodoStatus::Failed;
        self.updated_at = current_timestamp();
    }

    /// Counts one more retry and says whether the task runs again.
    pub fn retry(&mut self) -> (again: bool)
        ensures
            final(self)@ == old(self)@.retried(final(self).updated_at),
            again == old(self)@.can_retry(),
    {
        let again = self.retry_count < self.max_retries;
        if self.retry_count < u32::MAX {
            self.retry_count = self.retry_count + 1;
        }
        self.updated_at = current_timestamp();
        if again {
            self.status = TodoStatus::Pending;
        } else {
            self.status = TodoStatus::Failed;
        }
        again
    }

    /// Leaves the task out.
    pub fn skip(&mut self)
        ensures
            final(self)@ == old(self)@.moved_to(TodoStatus::Skipped, final(self).updated_at),
    {
        self.status = TodoStatus::Skipped;
        self.updated_at = current_timestamp();
    }

    /// Adds a note to the task.
    pub fn add_note(&mut self, note: &str)
        ensures
            final(self)@ == (TodoItemView {
                notes: old(self)@.notes.push(note@),
                updated_at: final(self).updated_at,
                ..old(self)@
            }),
    {
        let ghost before = strings_view(self.notes@);
        self.notes.push(String::from_str(note));
        assert(strings_view(self.notes@) =~= before.push(note@));
        self.updated_at = current_timestamp();
    }

    /// Whether the retry budget is not used up.
    pub fn can_retry(&self) -> (r: bool)
        ensures
            r == self@.can_retry(),
    {
        self.retry_count < self.max_retries
    }

    /// Whether the task will not run again.
    pub fn is_terminal(&self) -> (r: bool)
        ensures
            r == self@.is_terminal(),
    {
        match self.status {
            TodoStatus::Done => true,
            TodoStatus::Skipped => true,
            TodoStatus::Failed => !self.can_retry(),
            _ => false,
        }
    }
}

/// The queue of tasks.
#[derive(Debug, Clone, PartialEq, Eq)]
pub struct TodoList {
    items: Vec<TodoItem>,
    next_id: u32,
}

/// Counts of tasks by status.
#[derive(Debug, Clone, Copy, PartialEq, Eq, Structural)]
pub struct TodoStats {
    pub total: usize,
    pub pending: usize,
    pub running: usize,
    pub done: usize,
    pub failed: usize,
    pub skipped: usize,
}

/// The values of the tasks of a queue, in order.
pub open spec fn items_view(items: Seq<TodoItem>) -> Seq<TodoItemView> {
    items.map_values(|t: TodoItem| t@)
}

/// The index of the first task called `id`, or -1.
pub open spec fn position_of(items: Seq<TodoItemView>, id: Seq<char>) -> int
    decreases items.len(),
{
    if items.len() == 0 {
        -1
    } else {
        let before = position_of(items.drop_last(), id);
        if before >= 0 {
            before
        } else if items.last().id == id {
            items.len() - 1
        } else {
            -1
        }
    }
}

/// The index of the first task with the status `status`, or -1.
pub open spec fn first_with(items: Seq<TodoItemView>, status: TodoStatus) -> int
    decreases items.len(),
{
    if items.len() == 0 {
        -1
    } else {
        let before = first_with(items.drop_last(), status);
        if before >= 0 {
            before
        } else if items.last().status == status {
            items.len() - 1
        } else {
            -1
        }
    }
}

/// The indices of the tasks with the status `status`, in order.
pub open spec fn indices_with(items: Seq<TodoItemView>, status: TodoStatus) -> Seq<int>
    decreases items.len(),
{
    if items.len() == 0 {
        Seq::empty()
    } else {
        let before = indices_with(items.drop_last(), status);
        if items.last().status == status {
            before.push(items.len() - 1)
        } else {
            before
        }
    }
}

/// How many tasks have the status `status`.
pub open spec fn count_with(items: Seq<TodoItemView>, status: TodoStatus) -> nat {
    indices_with(items, status).len()
}

/// Whether every task is terminal.
pub open spec fn all_terminal(items: Seq<TodoItemView>) -> bool {
    forall|i: int| 0 <= i < items.len() ==> (#[trigger] items[i]).is_terminal()
}

/// The index of the task that was completed last: among the done tasks
/// the one that changed last, the later one where two changed at the same
/// time; -1 where no task is done.
pub open spec fn last_completed_index(items: Seq<TodoItemView>) -> int
    decreases items.len(),
{
    if items.len() == 0 {
        -1
    } else {
        let before = last_completed_index(items.drop_last());
        let last = items.len() - 1;
        if items[last].status == TodoStatus::Done && (before < 0 || items[last].updated_at
            >= items[before].updated_at) {
            last
        } else {
            before
        }
    }
}

/// The identifier made from the number `n`.
pub open spec fn task_id(n: u32) -> Seq<char> {
    "task_"@ + decimal(n as nat)
}

/// `position_of`, `first_with` and `last_completed_index` give an index of
/// the queue or -1, and the task they point to is of the kind asked for.
pub proof fn lemma_indices(items: Seq<TodoItemView>, id: Seq<char>, status: TodoStatus)
    ensures
        -1 <= position_of(items, id) < items.len(),
        position_of(items, id) >= 0 ==> items[position_of(items, id)].id == id,
        -1 <= first_with(items, status) < items.len(),
        first_with(items, status) >= 0 ==> items[first_with(items, status)].status == status,
        -1 <= last_completed_index(items) < items.len(),
        last_completed_index(items) >= 0 ==> items[last_completed_index(items)].status
            == TodoStatus::Done,
        indices_with(items, status).len() <= items.len(),
    decreases items.len(),
{
    if items.len() > 0 {
        let shorter = items.drop_last();
        lemma_indices(shorter, id, status);
        if position_of(shorter, id) >= 0 {
            assert(shorter[position_of(shorter, id)] == items[position_of(shorter, id)]);
        }
        if first_with(shorter, status) >= 0 {
            assert(shorter[first_with(shorter, status)] == items[first_with(shorter, status)]);
        }
        if last_completed_index(shorter) >= 0 {
            assert(shorter[last_completed_index(shorter)] == items[last_completed_index(shorter)]);
        }
    }
}

impl TodoList {
    /// The tasks of the queue, in order.
    pub closed spec fn tasks(self) -> Seq<TodoItemView> {
        items_view(self.items@)
    }

    /// The number from which the next identifier is made.
    pub closed spec fn next_number(self) -> u32 {
        self.next_id
    }

    /// An empty queue. Its first identifier will be `task_1`.
    pub fn new() -> (r: Self)
        ensures
            r.tasks() == Seq::<TodoItemView>::empty(),
            r.next_number() == 1,
    {
        let r = TodoList { items: Vec::new(), next_id: 1 };
        assert(items_view(r.items@) =~= Seq::empty());
        r
    }

    /// Adds a pending task at the end, under an identifier of the queue's
    /// own making, and gives that identifier back.
    ///
    /// The identifiers are `task_1`, `task_2` and so on; the number stops
    /// growing at the largest that fits.
    pub fn add(&mut self, description: &str, task_type: &str) -> (id: String)
        ensures
            id@ == task_id(old(self).next_number()),
            final(self).tasks().len() == old(self).tasks().len() + 1,
            final(self).tasks() == old(self).tasks().push(
                TodoItemView::created(
                    id@,
                    description@,
                    task_type@,
                    final(self).tasks().last().created_at,
                ),
            ),
            final(self).next_number() == if old(self).next_number() < u32::MAX {
                (old(self).next_number() + 1) as u32
            } else {
                old(self).next_number()
            },
    {
        let mut text = to_chars("task_");
        push_decimal(&mut text, self.next_id as u128);
        let id = from_chars(&text);
        if self.next_id < u32::MAX {
            self.next_id = self.next_id + 1;
        }
        let item = TodoItem::new(id.as_str(), description, task_type);
        let ghost before = items_view(self.items@);
        self.items.push(item);
        assert(items_view(self.items@) =~= before.push(item@));
        id
    }

    /// Adds a pending task at the end under the identifier `id`, and gives
    /// the identifier back.
    pub fn add_with_id(&mut self, id: &str, description: &str, task_type: &str) -> (r: String)
        ensures
            r@ == id@,
            final(self).tasks().len() == old(self).tasks().len() + 1,
            final(self).tasks() == old(self).tasks().push(
                TodoItemView::created(
                    id@,
                    description@,
                    task_type@,
                    final(self).tasks().last().created_at,
                ),
            ),
            final(self).next_number() == old(self).next_number(),
    {
        let item = TodoItem::new(id, description, task_type);
        let ghost before = items_view(self.items@);
        self.items.push(item);
        assert(items_view(self.items@) =~= before.push(item@));
        String::from_str(id)
    }

    /// The index of the first task called `id`.
    pub fn position(&self, id: &str) -> (r: Option<usize>)
        ensures
            match r {
                Some(i) => i < self.tasks().len() && i == position_of(self.tasks(), id@),
                None => position_of(self.tasks(), id@) == -1,
            },
    {
        let ghost all = items_view(self.items@);
        let mut i: usize = 0;
        while i < self.items.len()
            invariant
                i <= self.items.len(),
                all == items_view(self.items@),
                position_of(all.take(i as int), id@) == -1,
            decreases self.items.len() - i,
        {
            assert(all.take(i + 1).drop_last() == all.take(i as int));
            if str_eq(self.items[i].id.as_str(), id) {
                proof {
                    lemma_position_extends(all, id@, i + 1);
                }
                return Some(i);
            }
            i += 1;
        }
        assert(all.take(self.items.len() as int) == all);
        None
    }

    /// The index of the first task with the status `status`.
    pub fn first_index_with(&self, status: TodoStatus) -> (r: Option<usize>)
        ensures
            match r {
                Some(i) => i < self.tasks().len() && i == first_with(self.tasks(), status),
                None => first_with(self.tasks(), status) == -1,
            },
    {
        let ghost all = items_view(self.items@);
        let mut i: usize = 0;
        while i < self.items.len()
            invariant
                i <= self.items.len(),
                all == items_view(self.items@),
                first_with(all.take(i as int), status) == -1,
            decreases self.items.len() - i,
        {
            assert(all.take(i + 1).drop_last() == all.take(i as int));
            if self.items[i].status == status {
                proof {
                    lemma_first_with_extends(all, status, i + 1);
                }
                return Some(i);
            }
            i += 1;
        }
        assert(all.take(self.items.len() as int) == all);
        None
    }

    /// The task at the index `i`.
    pub fn item(&self, i: usize) -> (r: &TodoItem)
        requires
            i < self.tasks().len(),
        ensures
            r@ == self.tasks()[i as int],
    {
        &self.items[i]
    }

    /// The task at the index `i`, to be changed in place.
    pub fn item_mut(&mut self, i: usize) -> (r: &mut TodoItem)
        requires
            i < old(self).tasks().len(),
        ensures
            r@ == old(self).tasks()[i as int],
            final(self).tasks() == old(self).tasks().update(i as int, final(r)@),
            final(self).next_number() == old(self).next_number(),
    {
        let ghost before = self.items@;
        let item = &mut self.items[i];
        proof {
            assert(items_view(before.update(i as int, *final(item))) =~= items_view(before).update(
                i as int,
                final(item)@,
            ));
        }
        item
    }

    /// The number of tasks.
    pub fn len(&self) -> (r: usize)
        ensures
            r == self.tasks().len(),
    {
        self.items.len()
    }

    /// The first task called `id`.
    pub fn get(&self, id: &str) -> (r: Option<&TodoItem>)
        ensures
            match r {
                Some(item) => position_of(self.tasks(), id@) >= 0 && item@ == self.tasks()[position_of(
                    self.tasks(),
                    id@,
                )],
                None => position_of(self.tasks(), id@) == -1,
            },
    {
        match self.position(id) {
            Some(i) => Some(&self.items[i]),
            None => None,
        }
    }

    /// All tasks, in order.
    pub fn items(&self) -> (r: &Vec<TodoItem>)
        ensures
            items_view(r@) == self.tasks(),
    {
        &self.items
    }

    /// The first pending task.
    pub fn next_pending(&self) -> (r: Option<&TodoItem>)
        ensures
            match r {
                Some(item) => first_with(self.tasks(), TodoStatus::Pending) >= 0 && item@
                    == self.tasks()[first_with(self.tasks(), TodoStatus::Pending)],
                None => first_with(self.tasks(), TodoStatus::Pending) == -1,
            },
    {
        match self.first_index_with(TodoStatus::Pending) {
            Some(i) => Some(&self.items[i]),
            None => None,
        }
    }

    /// The first running task.
    pub fn current_running(&self) -> (r: Option<&TodoItem>)
        ensures
            match r {
                Some(item) => first_with(self.tasks(), TodoStatus::Running) >= 0 && item@
                    == self.tasks()[first_with(self.tasks(), TodoStatus::Running)],
                None => first_with(self.tasks(), TodoStatus::Running) == -1,
            },
    {
        match self.first_index_with(TodoStatus::Running) {
            Some(i) => Some(&self.items[i]),
            None => None,
        }
    }
}

impl TodoList {
    /// The first task called `id`, to be changed in place.
    pub fn get_mut(&mut self, id: &str) -> (r: Option<&mut TodoItem>)
        ensures
            match r {
                Some(item) => {
                    let i = position_of(old(self).tasks(), id@);
                    &&& i >= 0
                    &&& item@ == old(self).tasks()[i]
                    &&& final(self).tasks() == old(self).tasks().update(i, final(item)@)
                    &&& final(self).next_number() == old(self).next_number()
                },
                None => position_of(old(self).tasks(), id@) == -1 && final(self).tasks() == old(
                    self,
                ).tasks() && final(self).next_number() == old(self).next_number(),
            },
    {
        match self.position(id) {
            Some(i) => {
                let ghost before = self.items@;
                let item = &mut self.items[i];
                proof {
                    assert(items_view(before.update(i as int, *final(item))) =~= items_view(
                        before,
                    ).update(i as int, final(item)@));
                }
                Some(item)
            },
            None => None,
        }
    }
}

/// The values of borrowed tasks, in order.
pub open spec fn refs_view(items: Seq<&TodoItem>) -> Seq<TodoItemView> {
    items.map_values(|t: &TodoItem| t@)
}

/// The tasks of `items` at the indices `indices`.
pub open spec fn pick(items: Seq<TodoItemView>, indices: Seq<int>) -> Seq<TodoItemView> {
    indices.map_values(|i: int| items[i])
}

/// `items` with the task at `from` taken out and put back before the task
/// that stood at `to`: moved towards the front it stands at `to`, moved
/// towards the back it stands at `to - 1`, just before the task it was
/// moved up to.
pub open spec fn moved(items: Seq<TodoItemView>, from: int, to: int) -> Seq<TodoItemView> {
    items.remove(from).insert(
        if to > from {
            to - 1
        } else {
            to
        },
        items[from],
    )
}

impl TodoList {
    /// The tasks with the status `status`, in order.
    pub fn tasks_with(&self, status: TodoStatus) -> (r: Vec<&TodoItem>)
        ensures
            refs_view(r@) == pick(self.tasks(), indices_with(self.tasks(), status)),
            r@.len() == count_with(self.tasks(), status),
    {
        let ghost all = items_view(self.items@);
        let mut found: Vec<&TodoItem> = Vec::new();
        let mut i: usize = 0;
        assert(refs_view(found@) =~= pick(all, indices_with(all.take(0), status)));
        while i < self.items.len()
            invariant
                i <= self.items.len(),
                all == items_view(self.items@),
                refs_view(found@) == pick(all, indices_with(all.take(i as int), status)),
            decreases self.items.len() - i,
        {
            let ghost before = indices_with(all.take(i as int), status);
            assert(all.take(i + 1).drop_last() == all.take(i as int));
            if self.items[i].status == status {
                let ghost old_found = refs_view(found@);
                found.push(&self.items[i]);
                assert(refs_view(found@) =~= old_found.push(all[i as int]));
                assert(pick(all, before.push(i as int)) =~= pick(all, before).push(all[i as int]));
            }
            i += 1;
        }
        assert(all.take(self.items.len() as int) == all);
        found
    }

    /// All pending tasks, in order.
    pub fn pending_tasks(&self) -> (r: Vec<&TodoItem>)
        ensures
            refs_view(r@) == pick(self.tasks(), indices_with(self.tasks(), TodoStatus::Pending)),
            r@.len() == count_with(self.tasks(), TodoStatus::Pending),
    {
        self.tasks_with(TodoStatus::Pending)
    }

    /// All done tasks, in order.
    pub fn completed_tasks(&self) -> (r: Vec<&TodoItem>)
        ensures
            refs_view(r@) == pick(self.tasks(), indices_with(self.tasks(), TodoStatus::Done)),
            r@.len() == count_with(self.tasks(), TodoStatus::Done),
    {
        self.tasks_with(TodoStatus::Done)
    }

    /// All failed tasks, in order.
    pub fn failed_tasks(&self) -> (r: Vec<&TodoItem>)
        ensures
            refs_view(r@) == pick(self.tasks(), indices_with(self.tasks(), TodoStatus::Failed)),
            r@.len() == count_with(self.tasks(), TodoStatus::Failed),
    {
        self.tasks_with(TodoStatus::Failed)
    }

    /// Takes the first task called `id` out of the queue.
    pub fn remove(&mut self, id: &str) -> (r: Option<TodoItem>)
        ensures
            final(self).next_number() == old(self).next_number(),
            match r {
                Some(item) => {
                    let i = position_of(old(self).tasks(), id@);
                    i >= 0 && item@ == old(self).tasks()[i] && final(self).tasks() == old(
                        self,
                    ).tasks().remove(i)
                },
                None => position_of(old(self).tasks(), id@) == -1 && final(self).tasks() == old(
                    self,
                ).tasks(),
            },
    {
        match self.position(id) {
            Some(i) => {
                let ghost before = items_view(self.items@);
                let item = self.items.remove(i);
                assert(items_view(self.items@) =~= before.remove(i as int));
                Some(item)
            },
            None => None,
        }
    }

    /// Takes every task out of the queue. The numbering of identifiers goes
    /// on.
    pub fn clear(&mut self)
        ensures
            final(self).tasks() == Seq::<TodoItemView>::empty(),
            final(self).next_number() == old(self).next_number(),
    {
        self.items.clear();
        assert(items_view(self.items@) =~= Seq::empty());
    }

    /// How many tasks there are, in all and of each status.
    pub fn stats(&self) -> (r: TodoStats)
        ensures
            r.total == self.tasks().len(),
            r.pending == count_with(self.tasks(), TodoStatus::Pending),
            r.running == count_with(self.tasks(), TodoStatus::Running),
            r.done == count_with(self.tasks(), TodoStatus::Done),
            r.failed == count_with(self.tasks(), TodoStatus::Failed),
            r.skipped == count_with(self.tasks(), TodoStatus::Skipped),
    {
        let ghost all = items_view(self.items@);
        let mut stats = TodoStats { total: 0, pending: 0, running: 0, done: 0, failed: 0, skipped: 0 };
        let mut i: usize = 0;
        while i < self.items.len()
            invariant
                i <= self.items.len(),
                all == items_view(self.items@),
                stats.total == i,
                stats.pending == count_with(all.take(i as int), TodoStatus::Pending),
                stats.running == count_with(all.take(i as int), TodoStatus::Running),
                stats.done == count_with(all.take(i as int), TodoStatus::Done),
                stats.failed == count_with(all.take(i as int), TodoStatus::Failed),
                stats.skipped == count_with(all.take(i as int), TodoStatus::Skipped),
            decreases self.items.len() - i,
        {
            assert(all.take(i + 1).drop_last() == all.take(i as int));
            proof {
                lemma_indices(all.take(i as int), Seq::empty(), TodoStatus::Pending);
                lemma_indices(all.take(i as int), Seq::empty(), TodoStatus::Running);
                lemma_indices(all.take(i as int), Seq::empty(), TodoStatus::Done);
                lemma_indices(all.take(i as int), Seq::empty(), TodoStatus::Failed);
                lemma_indices(all.take(i as int), Seq::empty(), TodoStatus::Skipped);
            }
            stats.total = stats.total + 1;
            match self.items[i].status {
                TodoStatus::Pending => {
                    stats.pending = stats.pending + 1;
                },
                TodoStatus::Running => {
                    stats.running = stats.running + 1;
                },
                TodoStatus::Done => {
                    stats.done = stats.done + 1;
                },
                TodoStatus::Failed => {
                    stats.failed = stats.failed + 1;
                },
                TodoStatus::Skipped => {
                    stats.skipped = stats.skipped + 1;
                },
            }
            i += 1;
        }
        assert(all.take(self.items.len() as int) == all);
        stats
    }

    /// Whether every task is terminal.
    pub fn is_all_done(&self) -> (r: bool)
        ensures
            r == all_terminal(self.tasks()),
    {
        let ghost all = items_view(self.items@);
        let mut i: usize = 0;
        while i < self.items.len()
            invariant
                i <= self.items.len(),
                all == items_view(self.items@),
                forall|j: int| 0 <= j < i ==> (#[trigger] all[j]).is_terminal(),
            decreases self.items.len() - i,
        {
            if !self.items[i].is_terminal() {
                assert(!all[i as int].is_terminal());
                return false;
            }
            i += 1;
        }
        true
    }

    /// Moves the first task called `task_id` to just before the task that
    /// stands at `new_position`, and says whether it did: the task must
    /// exist, stand elsewhere, and the position must be one of the queue. A
    /// task moved towards the front then stands at `new_position`; one
    /// moved towards the back stands one place before it.
    pub fn reorder(&mut self, task_id: &str, new_position: usize) -> (r: bool)
        ensures
            final(self).next_number() == old(self).next_number(),
            r == (position_of(old(self).tasks(), task_id@) >= 0 && position_of(
                old(self).tasks(),
                task_id@,
            ) != new_position && new_position < old(self).tasks().len()),
            final(self).tasks() == if r {
                moved(
                    old(self).tasks(),
                    position_of(old(self).tasks(), task_id@),
                    new_position as int,
                )
            } else {
                old(self).tasks()
            },
    {
        match self.position(task_id) {
            Some(pos) => {
                if pos != new_position && new_position < self.items.len() {
                    let ghost before = items_view(self.items@);
                    let item = self.items.remove(pos);
                    assert(items_view(self.items@) =~= before.remove(pos as int));
                    let target = if new_position > pos {
                        new_position - 1
                    } else {
                        new_position
                    };
                    let ghost between = items_view(self.items@);
                    self.items.insert(target, item);
                    assert(items_view(self.items@) =~= between.insert(target as int, item@));
                    true
                } else {
                    false
                }
            },
            None => false,
        }
    }

    /// The index of the task that was completed last.
    pub fn last_completed_position(&self) -> (r: Option<usize>)
        ensures
            match r {
                Some(i) => i < self.tasks().len() && i == last_completed_index(self.tasks()),
                None => last_completed_index(self.tasks()) == -1,
            },
    {
        let ghost all = items_view(self.items@);
        let mut best: Option<usize> = None;
        let mut i: usize = 0;
        while i < self.items.len()
            invariant
                i <= self.items.len(),
                all == items_view(self.items@),
                match best {
                    Some(b) => b < i && b == last_completed_index(all.take(i as int)),
                    None => last_completed_index(all.take(i as int)) == -1,
                },
            decreases self.items.len() - i,
        {
            assert(all.take(i + 1).drop_last() == all.take(i as int));
            if self.items[i].status == TodoStatus::Done {
                let later = match best {
                    Some(b) => self.items[i].updated_at >= self.items[b].updated_at,
                    None => true,
                };
                if later {
                    best = Some(i);
                }
            }
            i += 1;
        }
        assert(all.take(self.items.len() as int) == all);
        best
    }

    /// The task that was completed last.
    pub fn last_completed(&self) -> (r: Option<&TodoItem>)
        ensures
            match r {
                Some(item) => last_completed_index(self.tasks()) >= 0 && item@
                    == self.tasks()[last_completed_index(self.tasks())],
                None => last_completed_index(self.tasks()) == -1,
            },
    {
        match self.last_completed_position() {
            Some(i) => Some(&self.items[i]),
            None => None,
        }
    }
}

/// Where the first task called `id` stands among the first `k` tasks, it is
/// the first in the whole queue.
pub proof fn lemma_position_extends(items: Seq<TodoItemView>, id: Seq<char>, k: int)
    requires
        0 <= k <= items.len(),
        position_of(items.take(k), id) >= 0,
    ensures
        position_of(items, id) == position_of(items.take(k), id),
    decreases items.len(),
{
    if k < items.len() {
        let shorter = items.drop_last();
        assert(shorter.take(k) == items.take(k));
        lemma_position_extends(shorter, id, k);
    } else {
        assert(items.take(k) == items);
    }
}

/// Where the first task with the status `status` stands among the first `k`
/// tasks, it is the first in the whole queue.
pub proof fn lemma_first_with_extends(items: Seq<TodoItemView>, status: TodoStatus, k: int)
    requires
        0 <= k <= items.len(),
        first_with(items.take(k), status) >= 0,
    ensures
        first_with(items, status) == first_with(items.take(k), status),
    decreases items.len(),
{
    if k < items.len() {
        let shorter = items.drop_last();
        assert(shorter.take(k) == items.take(k));
        lemma_first_with_extends(shorter, status, k);
    } else {
        assert(items.take(k) == items);
    }
}

/// The task after it failed and was asked to run again `n` times in a row,
/// each time for the reason `reason` at the time `now`.
pub open spec fn failed_rounds(item: TodoItemView, reason: Seq<char>, now: u64, n: nat)
    -> TodoItemView
    decreases n,
{
    if n == 0 {
        item
    } else {
        failed_rounds(item, reason, now, (n - 1) as nat).failed(reason, now).retried(now)
    }
}

/// A task that never ran again before is pending after each failure as
/// long as the failures are no more than its budget of retries, and has
/// failed for good, with one retry more counted than its budget, after the
/// failure that exceeds it. A task that is done is terminal whatever
/// happened to it before.
pub proof fn law_retry_budget(item: TodoItemView, reason: Seq<char>, now: u64, n: nat)
    requires
        item.retry_count == 0,
        item.max_retries < u32::MAX,
        n <= item.max_retries + 1,
    ensures
        failed_rounds(item, reason, now, n).retry_count == n,
        failed_rounds(item, reason, now, n).max_retries == item.max_retries,
        0 < n <= item.max_retries ==> failed_rounds(item, reason, now, n).status
            == TodoStatus::Pending && !failed_rounds(item, reason, now, n).is_terminal(),
        n == item.max_retries + 1 ==> failed_rounds(item, reason, now, n).status
            == TodoStatus::Failed && failed_rounds(item, reason, now, n).is_terminal(),
        failed_rounds(item, reason, now, n).moved_to(TodoStatus::Done, now).is_terminal(),
    decreases n,
{
    if n > 0 {
        law_retry_budget(item, reason, now, (n - 1) as nat);
    }
}

/// Identifiers made from different numbers differ, so the queue never
/// gives one identifier to two tasks before its numbers run out.
pub proof fn law_task_ids_differ(a: u32, b: u32)
    requires
        a != b,
    ensures
        task_id(a) != task_id(b),
{
    crate::number::lemma_decimal_round_trip(a as nat);
    crate::number::lemma_decimal_round_trip(b as nat);
    if task_id(a) == task_id(b) {
        let head = "task_"@;
        assert(task_id(a).skip(head.len() as int) =~= decimal(a as nat));
        assert(task_id(b).skip(head.len() as int) =~= decimal(b as nat));
    }
}

} // verus!
