//! The task record and its mathematical model.

use vstd::prelude::*;

verus! {

/// What a [`Task`] is, as plain mathematical values.
#[verifier::ext_equal]
pub struct TaskView {
    pub id: nat,
    pub title: Seq<char>,
    pub description: Seq<char>,
    pub completed: bool,
}

/// One unit of work.
///
/// The registry assigns `id`; `title` and `description` are stored exactly as the
/// caller gave them, and `completed` starts out `false`.
#[derive(Debug, PartialEq, Eq)]
pub struct Task {
    pub id: usize,
    pub title: String,
    pub description: String,
    pub completed: bool,
}

impl View for Task {
    type V = TaskView;

    open spec fn view(&self) -> TaskView {
        TaskView {
            id: self.id as nat,
            title: self.title@,
            description: self.description@,
            completed: self.completed,
        }
    }
}

impl Clone for Task {
    /// A copy with the same id, title, description and flag.
    fn clone(&self) -> (copy: Self)
        ensures
            copy == *self,
    {
        Task {
            id: self.id,
            title: self.title.clone(),
            description: self.description.clone(),
            completed: self.completed,
        }
    }
}

} // verus!
