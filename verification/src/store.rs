//! The task store: the record set and its four operations.

use vstd::prelude::*;
use vstd::string::*;
use crate::date::{clock_today, date_text, parse_date, parsed_ymd, Date};
use crate::error::{StorageError, TaskError, ValidationError};
use crate::task::{views, Task, TaskView};
use crate::text::text_of;

verus! {

/// The largest id that the store gives out.
pub const MAX_ID: u64 = 0x7fff_ffff_ffff_ffff;

/// The record set: the tasks in the order in which they were created, and
/// the id that the next task will get.
pub struct TaskStore {
    tasks: Vec<Task>,
    next_id: u64,
}

/// A store as contracts see it.
pub ghost struct StoreModel {
    pub tasks: Seq<TaskView>,
    pub next_id: nat,
}

impl StoreModel {
    /// The rules that every store keeps: ids start at 1 and lie below the
    /// next id to be given out, ids grow strictly along the list (so no id
    /// occurs twice), and no description is empty.
    pub open spec fn wf(self) -> bool {
        &&& 1 <= self.next_id <= MAX_ID + 1
        &&& forall|i: int|
            0 <= i < self.tasks.len() ==> 1 <= (#[trigger] self.tasks[i]).id < self.next_id
        &&& forall|i: int| 0 <= i < self.tasks.len() ==> (#[trigger] self.tasks[i]).description.len() > 0
        &&& forall|i: int, j: int|
            0 <= i < j < self.tasks.len() ==> (#[trigger] self.tasks[i]).id < (#[trigger] self.tasks[j]).id
    }

    /// The store that holds nothing and has given out no id.
    pub open spec fn empty() -> StoreModel {
        StoreModel { tasks: Seq::empty(), next_id: 1 }
    }

    /// Whether a task with this id is in the store.
    pub open spec fn holds(self, id: nat) -> bool {
        exists|i: int| 0 <= i < self.tasks.len() && (#[trigger] self.tasks[i]).id == id
    }

    /// Whether the store has ever given this id to a task.
    pub open spec fn given_out(self, id: nat) -> bool {
        1 <= id < self.next_id
    }

    /// Whether the store can take one more task.
    pub open spec fn has_room(self) -> bool {
        self.next_id <= MAX_ID
    }

    /// What storing a task with this description gives: the id of the new
    /// task, or the reason why nothing was stored. An empty description is
    /// refused before the room is looked at.
    pub open spec fn insertion(self, description: Seq<char>) -> Result<u64, TaskError> {
        if description.len() == 0 {
            Err(TaskError::Validation(ValidationError::EmptyDescription))
        } else if !self.has_room() {
            Err(TaskError::Storage(StorageError::Full))
        } else {
            Ok(self.next_id as u64)
        }
    }

    /// What creating a task gives: the id of the new task, or the reason
    /// why nothing was stored. An empty description is refused first, then
    /// a due date that is given and is no date, then a store without room.
    pub open spec fn creation(self, description: Seq<char>, due_date: Option<Seq<char>>) -> Result<
        u64,
        TaskError,
    > {
        if description.len() == 0 {
            Err(TaskError::Validation(ValidationError::EmptyDescription))
        } else if due_date is Some && parsed_ymd(due_date->Some_0) is None {
            Err(TaskError::Validation(ValidationError::MalformedDate))
        } else {
            self.insertion(description)
        }
    }

    /// The store after a task with this description and date was created.
    pub open spec fn created(self, description: Seq<char>, due_date: Seq<char>) -> StoreModel {
        StoreModel {
            tasks: self.tasks.push(
                TaskView { id: self.next_id, description, done: false, due_date },
            ),
            next_id: self.next_id + 1,
        }
    }

    /// The store after the task with this id was completed: that task is
    /// done, and nothing else has changed.
    pub open spec fn completed(self, id: nat) -> StoreModel {
        StoreModel {
            tasks: Seq::new(
                self.tasks.len(),
                |i: int|
                    if self.tasks[i].id == id {
                        TaskView { done: true, ..self.tasks[i] }
                    } else {
                        self.tasks[i]
                    },
            ),
            next_id: self.next_id,
        }
    }

    /// The store after all tasks were deleted. The ids that were given out
    /// stay used.
    pub open spec fn cleared(self) -> StoreModel {
        StoreModel { tasks: Seq::empty(), next_id: self.next_id }
    }
}

/// The date recorded with a new task: the due date as it was given, or,
/// where none was given, the day of creation written as `YYYY-MM-DD`.
pub open spec fn recorded_date(due_date: Option<Seq<char>>, today: (int, int, int)) -> Seq<char> {
    match due_date {
        Some(t) => t,
        None => date_text(today),
    }
}

impl View for TaskStore {
    type V = StoreModel;

    closed spec fn view(&self) -> StoreModel {
        StoreModel { tasks: views(self.tasks@), next_id: self.next_id as nat }
    }
}

impl TaskStore {
    #[verifier::type_invariant]
    spec fn inv(self) -> bool {
        self@.wf()
    }

    /// Takes over records that were stored earlier: the tasks in their
    /// order and the id that the next task is to get. Records that break
    /// the rules of the store are refused as corrupt.
    pub fn restore(tasks: Vec<Task>, next_id: u64) -> (r: Result<Self, StorageError>)
        ensures
            match r {
                Ok(store) => {
                    &&& store@ == StoreModel { tasks: views(tasks@), next_id: next_id as nat }
                    &&& store@.wf()
                },
                Err(e) => {
                    &&& e == StorageError::Corrupt
                    &&& !(StoreModel { tasks: views(tasks@), next_id: next_id as nat }).wf()
                },
            },
    {
        let ghost given = StoreModel { tasks: views(tasks@), next_id: next_id as nat };
        if next_id < 1 || next_id > MAX_ID + 1 {
            return Err(StorageError::Corrupt);
        }
        let mut k: usize = 0;
        while k < tasks.len()
            invariant
                k <= tasks.len(),
                given == (StoreModel { tasks: views(tasks@), next_id: next_id as nat }),
                forall|i: int| 0 <= i < k ==> 1 <= (#[trigger] given.tasks[i]).id < next_id,
                forall|i: int| 0 <= i < k ==> (#[trigger] given.tasks[i]).description.len() > 0,
                forall|i: int, j: int|
                    0 <= i < j < k ==> (#[trigger] given.tasks[i]).id < (#[trigger] given.tasks[j]).id,
            decreases tasks.len() - k,
        {
            let task = &tasks[k];
            assert(given.tasks[k as int] == task@);
            if task.id < 1 || task.id >= next_id || task.description.as_str().is_empty() {
                return Err(StorageError::Corrupt);
            }
            if k > 0 && tasks[k - 1].id >= task.id {
                assert(given.tasks[k - 1] == tasks[k - 1]@);
                return Err(StorageError::Corrupt);
            }
            assert forall|i: int, j: int| 0 <= i < j < k + 1 implies (#[trigger] given.tasks[i]).id < (
            #[trigger] given.tasks[j]).id by {
                if j == k && i < k - 1 {
                    assert(given.tasks[i].id < given.tasks[k - 1].id);
                }
            }
            k += 1;
        }
        Ok(TaskStore { tasks, next_id })
    }

    /// A store that holds nothing. The first task will get the id 1.
    pub fn new() -> (r: Self)
        ensures
            r@ == StoreModel::empty(),
    {
        let r = TaskStore { tasks: Vec::new(), next_id: 1 };
        assert(r@.tasks =~= Seq::empty());
        r
    }

    /// The id that the next task will get.
    pub fn next_id(&self) -> (r: u64)
        ensures
            r == self@.next_id,
            self@.wf(),
    {
        proof {
            use_type_invariant(self);
        }
        self.next_id
    }

    /// All tasks, in the order in which they were created.
    pub fn list(&self) -> (r: Vec<Task>)
        ensures
            views(r@) == self@.tasks,
            self@.wf(),
    {
        proof {
            use_type_invariant(self);
        }
        let mut out: Vec<Task> = Vec::new();
        let mut k: usize = 0;
        while k < self.tasks.len()
            invariant
                k <= self.tasks.len(),
                out.len() == k,
                forall|i: int| 0 <= i < k ==> out[i] == self.tasks[i],
            decreases self.tasks.len() - k,
        {
            out.push(self.tasks[k].clone());
            k += 1;
        }
        out
    }

    /// Stores a new task with this description and this date, not yet done,
    /// under the next id. The date is recorded as it is given. Nothing is
    /// stored where the description is empty or no id is left.
    pub fn insert(&mut self, description: &str, due_date: &str) -> (r: Result<u64, TaskError>)
        ensures
            r == old(self)@.insertion(description@),
            r is Ok ==> final(self)@ == old(self)@.created(description@, due_date@),
            r is Err ==> final(self)@ == old(self)@,
            final(self)@.wf(),
    {
        proof {
            use_type_invariant(&*self);
        }
        if description.is_empty() {
            return Err(TaskError::Validation(ValidationError::EmptyDescription));
        }
        if self.next_id > MAX_ID {
            return Err(TaskError::Storage(StorageError::Full));
        }
        let id = self.next_id;
        let task = Task {
            id,
            description: String::from_str(description),
            done: false,
            due_date: String::from_str(due_date),
        };
        let ghost after = old(self)@.created(description@, due_date@);
        let mut tasks: Vec<Task> = Vec::new();
        core::mem::swap(&mut self.tasks, &mut tasks);
        tasks.push(task);
        self.next_id = id + 1;
        assert(views(tasks@) =~= after.tasks);
        core::mem::swap(&mut self.tasks, &mut tasks);
        Ok(id)
    }

    /// Marks the task with this id as done. Where no task has this id,
    /// nothing changes.
    pub fn complete(&mut self, id: u64)
        ensures
            final(self)@ == old(self)@.completed(id as nat),
            final(self)@.wf(),
    {
        proof {
            use_type_invariant(&*self);
        }
        let ghost after = old(self)@.completed(id as nat);
        let mut tasks: Vec<Task> = Vec::new();
        core::mem::swap(&mut self.tasks, &mut tasks);
        let mut k: usize = 0;
        while k < tasks.len()
            invariant
                k <= tasks.len(),
                tasks.len() == after.tasks.len(),
                after == old(self)@.completed(id as nat),
                forall|i: int| 0 <= i < k ==> (#[trigger] tasks[i])@ == after.tasks[i],
                forall|i: int|
                    k <= i < tasks.len() ==> (#[trigger] tasks[i])@ == old(self)@.tasks[i],
            decreases tasks.len() - k,
        {
            if tasks[k].id == id {
                tasks[k].done = true;
            }
            k += 1;
        }
        assert(views(tasks@) =~= after.tasks);
        core::mem::swap(&mut self.tasks, &mut tasks);
    }

    /// Deletes all tasks. The ids that were given out are not given out
    /// again.
    pub fn delete_all(&mut self)
        ensures
            final(self)@ == old(self)@.cleared(),
            final(self)@.wf(),
    {
        proof {
            use_type_invariant(&*self);
        }
        self.tasks = Vec::new();
        assert(self@.tasks =~= Seq::empty());
    }

    /// Creates a task on the day `today`. A due date that is given must be
    /// a calendar date written as `YYYY-MM-DD` and is recorded as given;
    /// where none is given, `today` is recorded.
    pub fn create_on(&mut self, description: &str, due_date: Option<&str>, today: Date) -> (r:
        Result<u64, TaskError>)
        ensures
            r == old(self)@.creation(description@, text_of(due_date)),
            r is Ok ==> final(self)@ == old(self)@.created(
                description@,
                recorded_date(text_of(due_date), today@),
            ),
            r is Err ==> final(self)@ == old(self)@,
            final(self)@.wf(),
    {
        proof {
            use_type_invariant(&*self);
        }
        if description.is_empty() {
            return Err(TaskError::Validation(ValidationError::EmptyDescription));
        }
        match due_date {
            Some(text) => match parse_date(text) {
                Ok(_) => self.insert(description, text),
                Err(e) => Err(TaskError::Validation(e)),
            },
            None => {
                let recorded = today.text();
                self.insert(description, recorded.as_str())
            },
        }
    }

    /// Creates a task today, by the clock of this machine. Whether the task
    /// is created, and under which id, does not depend on the clock; only
    /// the date recorded for a task without a due date does.
    pub fn create(&mut self, description: &str, due_date: Option<&str>) -> (r: Result<
        u64,
        TaskError,
    >)
        ensures
            r == old(self)@.creation(description@, text_of(due_date)),
            r is Ok ==> exists|today: (int, int, int)|
                final(self)@ == old(self)@.created(
                    description@,
                    #[trigger] recorded_date(text_of(due_date), today),
                ),
            r is Err ==> final(self)@ == old(self)@,
            final(self)@.wf(),
    {
        let today = clock_today();
        let r = self.create_on(description, due_date, today);
        assert(r is Ok ==> self@ == old(self)@.created(
            description@,
            recorded_date(text_of(due_date), today@),
        ));
        r
    }
}

/// Creating a task with a description that is not empty and a due date
/// that is absent or a date, in a store that has room, succeeds and adds
/// exactly one task at the end of the list: it has that description, is not
/// done, and its id is above the id of every task in the list and above
/// every id that the store has ever given out. The tasks that were there
/// are unchanged.
pub proof fn lemma_create_adds_one_fresh_task(
    store: StoreModel,
    description: Seq<char>,
    due_date: Option<Seq<char>>,
    today: (int, int, int),
)
    requires
        store.wf(),
        store.has_room(),
        description.len() > 0,
        due_date is Some ==> parsed_ymd(due_date->Some_0) is Some,
    ensures
        store.creation(description, due_date) == Ok::<u64, TaskError>(store.next_id as u64),
        ({
            let after = store.created(description, recorded_date(due_date, today));
            let fresh = after.tasks.last();
            &&& after.wf()
            &&& after.tasks.len() == store.tasks.len() + 1
            &&& after.tasks.subrange(0, store.tasks.len() as int) == store.tasks
            &&& fresh.description == description
            &&& !fresh.done
            &&& fresh.due_date == recorded_date(due_date, today)
            &&& due_date is Some ==> fresh.due_date == due_date->Some_0
            &&& fresh.id == store.next_id
            &&& !store.given_out(fresh.id)
            &&& after.given_out(fresh.id)
            &&& forall|id: nat| store.given_out(id) ==> id < fresh.id
            &&& forall|i: int| 0 <= i < store.tasks.len() ==> (#[trigger] store.tasks[i]).id < fresh.id
        }),
{
}

/// No operation takes back an id: what the store has given out stays given
/// out after a task is created, after a task is completed and after all
/// tasks are deleted, so no later task gets an id that was used before.
pub proof fn lemma_ids_are_never_reused(
    store: StoreModel,
    description: Seq<char>,
    due_date: Seq<char>,
    id: nat,
    used: nat,
)
    requires
        store.given_out(used),
    ensures
        store.created(description, due_date).given_out(used),
        store.completed(id).given_out(used),
        store.cleared().given_out(used),
{
}

/// Completing a task that is in the store leaves a list of the same length
/// and order in which that task, and it alone, has the id, and is done;
/// its description and date are as before, and every other task is
/// unchanged.
pub proof fn lemma_complete_marks_only_that_task(store: StoreModel, id: nat)
    requires
        store.wf(),
        store.holds(id),
    ensures
        ({
            let after = store.completed(id);
            &&& after.wf()
            &&& after.next_id == store.next_id
            &&& after.tasks.len() == store.tasks.len()
            &&& exists|k: int|
                {
                    &&& 0 <= k < store.tasks.len()
                    &&& (#[trigger] store.tasks[k]).id == id
                    &&& after.tasks[k] == (TaskView { done: true, ..store.tasks[k] })
                    &&& forall|i: int|
                        0 <= i < store.tasks.len() && i != k ==> #[trigger] after.tasks[i]
                            == store.tasks[i]
                }
        }),
{
    let after = store.completed(id);
    let k = choose|k: int| 0 <= k < store.tasks.len() && (#[trigger] store.tasks[k]).id == id;
    assert forall|i: int| 0 <= i < store.tasks.len() && i != k implies #[trigger] after.tasks[i]
        == store.tasks[i] by {
        if i < k {
            assert(store.tasks[i].id < store.tasks[k].id);
        } else {
            assert(store.tasks[k].id < store.tasks[i].id);
        }
    }
}

/// Completing an id that no task has changes nothing.
pub proof fn lemma_complete_of_unknown_id_changes_nothing(store: StoreModel, id: nat)
    requires
        !store.holds(id),
    ensures
        store.completed(id) == store,
{
    assert(store.completed(id).tasks =~= store.tasks);
}

/// A task that is done stays done, whatever is completed afterwards, and
/// completing a task twice is the same as completing it once.
pub proof fn lemma_done_is_never_undone(store: StoreModel, id: nat)
    ensures
        forall|i: int|
            0 <= i < store.tasks.len() && (#[trigger] store.tasks[i]).done ==> store.completed(
                id,
            ).tasks[i].done,
        store.completed(id).completed(id) == store.completed(id),
{
    assert(store.completed(id).completed(id).tasks =~= store.completed(id).tasks);
}

/// After all tasks are deleted the list is empty, whatever it held before,
/// and a store that kept its rules still keeps them.
pub proof fn lemma_delete_all_leaves_nothing(store: StoreModel)
    ensures
        store.cleared().tasks == Seq::<TaskView>::empty(),
        store.cleared().tasks.len() == 0,
        forall|id: nat| !store.cleared().holds(id),
        store.wf() ==> store.cleared().wf(),
{
}

/// Listing the store twice with nothing done in between gives the same
/// tasks in the same order: any two lists that show what the store holds
/// agree in length and, place by place, in id, description, state and date.
pub proof fn lemma_list_is_repeatable(store: TaskStore, first: Vec<Task>, second: Vec<Task>)
    requires
        views(first@) == store@.tasks,
        views(second@) == store@.tasks,
    ensures
        views(first@) == views(second@),
        first.len() == second.len(),
        forall|i: int| 0 <= i < first.len() ==> first[i]@ == second[i]@,
{
    assert(views(first@).len() == first.len());
    assert(views(second@).len() == second.len());
    assert forall|i: int| 0 <= i < first.len() implies first[i]@ == second[i]@ by {
        assert(views(first@)[i] == first[i]@);
        assert(views(second@)[i] == second[i]@);
    }
}

} // verus!
