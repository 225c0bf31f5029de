//! What the registry hands back for a created task: the success payload with its
//! confirmation message.

use vstd::prelude::*;
use crate::decimal::decimal;
use crate::decimal::decimal_string;
use crate::task::Task;
use crate::task::TaskView;

verus! {

/// The confirmation for a task with this title and id:
/// `Task '<title>' added successfully with ID <id>`, the id in decimal.
pub open spec fn confirmation_text(title: Seq<char>, id: nat) -> Seq<char> {
    "Task '"@ + title + "' added successfully with ID "@ + decimal(id)
}

/// The confirmation message for a task with this title and id.
pub fn confirmation_message(title: &str, id: usize) -> (message: String)
    ensures
        message@ == confirmation_text(title@, id as nat),
{
    let mut message = "Task '".to_owned();
    message.append(title);
    message.append("' added successfully with ID ");
    let number = decimal_string(id);
    message.append(number.as_str());
    message
}

/// What an [`AddTaskResponse`] is, as plain mathematical values.
#[verifier::ext_equal]
pub struct AddTaskResponseView {
    pub success: bool,
    pub task: TaskView,
    pub message: Seq<char>,
}

/// The success payload for `task`: the flag set, the whole task, and the
/// confirmation that names its title and id.
pub open spec fn success_payload(task: TaskView) -> AddTaskResponseView {
    AddTaskResponseView {
        success: true,
        task,
        message: confirmation_text(task.title, task.id),
    }
}

/// The structured result of adding a task.
#[derive(Debug, PartialEq, Eq)]
pub struct AddTaskResponse {
    pub success: bool,
    pub task: Task,
    pub message: String,
}

impl View for AddTaskResponse {
    type V = AddTaskResponseView;

    open spec fn view(&self) -> AddTaskResponseView {
        AddTaskResponseView { success: self.success, task: self.task@, message: self.message@ }
    }
}

impl AddTaskResponse {
    /// The success payload for a task that was just created.
    pub fn created(task: Task) -> (response: AddTaskResponse)
        ensures
            response@ == success_payload(task@),
            response.task == task,
    {
        let message = confirmation_message(task.title.as_str(), task.id);
        AddTaskResponse { success: true, task, message }
    }
}

} // verus!
