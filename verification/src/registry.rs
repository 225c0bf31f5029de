//! The registry: the ordered collection of tasks and the counter that issues ids.
//!
//! Both change together, in the one mutation [`TaskRegistry::create_task`]. The
//! method takes `&mut self`, so a caller holds the registry exclusively for the
//! whole step: whoever shares a registry between threads puts it behind a single
//! lock, and the order in which callers get that lock is the order of the calls.

use vstd::prelude::*;
use crate::task::Task;
use crate::task::TaskView;

verus! {

/// The first id that a registry issues.
pub const FIRST_ID: usize = 1;

/// What one call of `create_task` passes in.
pub struct CallView {
    pub title: Seq<char>,
    pub description: Seq<char>,
}

/// What a [`TaskRegistry`] is: the tasks in creation order, and the next id.
#[verifier::ext_equal]
pub struct RegistryView {
    pub tasks: Seq<TaskView>,
    pub next_id: nat,
}

impl RegistryView {
    /// The registry that holds no task yet.
    pub open spec fn empty() -> RegistryView {
        RegistryView { tasks: Seq::empty(), next_id: FIRST_ID as nat }
    }

    /// Collection and counter agree: the task at position `i` has the id
    /// `FIRST_ID + i`, and the counter, which fits a `usize`, is the id after the
    /// last one issued. So the ids are distinct, grow with the position, and lie
    /// below the counter.
    pub open spec fn wf(self) -> bool {
        &&& self.next_id <= usize::MAX
        &&& self.next_id == FIRST_ID + self.tasks.len()
        &&& forall|i: int|
            0 <= i < self.tasks.len() ==> (#[trigger] self.tasks[i]).id == FIRST_ID + i
    }

    /// Whether the counter can advance once more, so that a task can be created.
    /// A valid registry lacks room only with the counter at `usize::MAX`.
    pub open spec fn has_room(self) -> bool {
        self.next_id < usize::MAX
    }

    /// The task that the next creation with this title and description makes.
    pub open spec fn issued(self, title: Seq<char>, description: Seq<char>) -> TaskView {
        TaskView { id: self.next_id, title, description, completed: false }
    }

    /// The registry after that creation: the new task appended, the counter one up.
    pub open spec fn with_task(self, title: Seq<char>, description: Seq<char>) -> RegistryView {
        RegistryView {
            tasks: self.tasks.push(self.issued(title, description)),
            next_id: self.next_id + 1,
        }
    }

    /// The registry that one call leaves behind.
    pub open spec fn after_call(self, call: CallView) -> RegistryView {
        if self.has_room() {
            self.with_task(call.title, call.description)
        } else {
            self
        }
    }

    /// What one call returns: the new task, or nothing where the ids are used up.
    pub open spec fn outcome(self, call: CallView) -> Option<TaskView> {
        if self.has_room() {
            Some(self.issued(call.title, call.description))
        } else {
            None
        }
    }
}

/// Why a task could not be created.
#[derive(Debug, Clone, Copy, PartialEq, Eq, Structural)]
pub enum RegistryError {
    /// The counter has reached the largest id: no further id can be issued.
    IdSpaceExhausted,
}

impl RegistryError {
    /// What the error says, as a model.
    pub open spec fn text(self) -> Seq<char> {
        "task id space exhausted"@
    }

    /// The error in words.
    pub fn message(&self) -> (message: String)
        ensures
            message@ == self.text(),
    {
        match self {
            RegistryError::IdSpaceExhausted => "task id space exhausted".to_owned(),
        }
    }
}

/// The tasks of one process and the counter that numbers them.
#[derive(Debug)]
pub struct TaskRegistry {
    tasks: Vec<Task>,
    next_id: usize,
}

impl View for TaskRegistry {
    type V = RegistryView;

    closed spec fn view(&self) -> RegistryView {
        RegistryView {
            tasks: self.tasks@.map_values(|task: Task| task@),
            next_id: self.next_id as nat,
        }
    }
}

impl TaskRegistry {
    /// The invariant of the registry, stated on its model. `new` establishes it
    /// and every method keeps it; the fields are private, so nothing else can
    /// break it.
    pub open spec fn wf(&self) -> bool {
        self@.wf()
    }

    /// An empty registry, whose first task will get the id [`FIRST_ID`].
    pub fn new() -> (registry: Self)
        ensures
            registry.wf(),
            registry@ == RegistryView::empty(),
    {
        TaskRegistry { tasks: Vec::new(), next_id: FIRST_ID }
    }

    /// Creates a task: reads the counter, stores a task with that id, the given
    /// title and description and `completed == false` behind the others, advances
    /// the counter, and returns a copy of the stored task.
    ///
    /// Fails exactly when the counter stands at the largest `usize`, and then
    /// leaves the registry as it was.
    pub fn create_task(&mut self, title: String, description: String) -> (result: Result<
        Task,
        RegistryError,
    >)
        requires
            old(self).wf(),
        ensures
            final(self).wf(),
            match result {
                Ok(task) => {
                    &&& old(self)@.has_room()
                    &&& task@ == old(self)@.issued(title@, description@)
                    &&& final(self)@ == old(self)@.with_task(title@, description@)
                },
                Err(error) => {
                    &&& !old(self)@.has_room()
                    &&& error == RegistryError::IdSpaceExhausted
                    &&& final(self)@ == old(self)@
                },
            },
            // The same, as one step of a run of calls.
            final(self)@ == old(self)@.after_call(
                (CallView { title: title@, description: description@ }),
            ),
            old(self)@.outcome((CallView { title: title@, description: description@ })) == (
            match result {
                Ok(task) => Some(task@),
                Err(_) => None,
            }),
            // The returned task has the id that the counter showed and carries
            // what the caller gave, unchanged.
            result matches Ok(task) ==> {
                &&& task@.id == old(self)@.next_id
                &&& task@.title == title@
                &&& task@.description == description@
                &&& !task@.completed
            },
            // The collection grows by that one task, at its end, and the counter
            // by one.
            result matches Ok(task) ==> {
                &&& final(self)@.tasks.len() == old(self)@.tasks.len() + 1
                &&& final(self)@.tasks.last() == task@
                &&& final(self)@.tasks.drop_last() == old(self)@.tasks
                &&& final(self)@.next_id == old(self)@.next_id + 1
            },
    {
        let id = self.next_id;
        match id.checked_add(1) {
            None => Err(RegistryError::IdSpaceExhausted),
            Some(next_id) => {
                let task = Task { id, title, description, completed: false };
                self.tasks.push(task.clone());
                self.next_id = next_id;
                assert(self@ =~= old(self)@.with_task(title@, description@));
                Ok(task)
            },
        }
    }

    /// How many tasks the registry holds.
    pub fn len(&self) -> (n: usize)
        ensures
            n == self@.tasks.len(),
    {
        self.tasks.len()
    }

    /// The id that the next task will get.
    pub fn next_id(&self) -> (id: usize)
        ensures
            id == self@.next_id,
    {
        self.next_id
    }

    /// The task at position `index` in creation order, if there is one.
    pub fn get(&self, index: usize) -> (found: Option<&Task>)
        ensures
            match found {
                Some(task) => index < self@.tasks.len() && task@ == self@.tasks[index as int],
                None => index >= self@.tasks.len(),
            },
    {
        if index < self.tasks.len() {
            Some(&self.tasks[index])
        } else {
            None
        }
    }
}

} // verus!
