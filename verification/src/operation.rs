//! The one operation that the registry offers to remote callers: its request,
//! its handler, and its description for discovery.

use vstd::prelude::*;
use crate::registry::CallView;
use crate::registry::RegistryError;
use crate::registry::TaskRegistry;
use crate::response::success_payload;
use crate::response::AddTaskResponse;

verus! {

/// The decoded payload of an `add_task` request.
#[derive(Debug, PartialEq, Eq)]
pub struct AddTaskRequest {
    pub title: String,
    pub description: String,
}

impl View for AddTaskRequest {
    type V = CallView;

    open spec fn view(&self) -> CallView {
        CallView { title: self.title@, description: self.description@ }
    }
}

impl TaskRegistry {
    /// Serves one `add_task` request: creates the task and shapes the success
    /// payload around it. Fails exactly when `create_task` does, and then
    /// leaves the registry as it was.
    pub fn add_task(&mut self, request: AddTaskRequest) -> (result: Result<
        AddTaskResponse,
        RegistryError,
    >)
        requires
            old(self).wf(),
        ensures
            final(self).wf(),
            final(self)@ == old(self)@.after_call(request@),
            match result {
                Ok(response) => {
                    &&& old(self)@.outcome(request@) == Some(response@.task)
                    &&& response@ == success_payload(response@.task)
                    &&& final(self)@.tasks.len() == old(self)@.tasks.len() + 1
                    &&& final(self)@.tasks.last() == response@.task
                },
                Err(error) => {
                    &&& old(self)@.outcome(request@) is None
                    &&& error == RegistryError::IdSpaceExhausted
                    &&& final(self)@ == old(self)@
                },
            },
    {
        let AddTaskRequest { title, description } = request;
        match self.create_task(title, description) {
            Ok(task) => Ok(AddTaskResponse::created(task)),
            Err(error) => Err(error),
        }
    }
}

/// The type of a parameter's value.
#[derive(Debug, Clone, Copy, PartialEq, Eq, Structural)]
pub enum ParameterKind {
    /// A string.
    Text,
}

/// What a [`ParameterDefinition`] is, as plain mathematical values.
#[verifier::ext_equal]
pub struct ParameterView {
    pub name: Seq<char>,
    pub kind: ParameterKind,
    pub description: Seq<char>,
    pub required: bool,
}

/// One field of an operation's payload.
#[derive(Debug, PartialEq, Eq)]
pub struct ParameterDefinition {
    pub name: String,
    pub kind: ParameterKind,
    pub description: String,
    pub required: bool,
}

impl View for ParameterDefinition {
    type V = ParameterView;

    open spec fn view(&self) -> ParameterView {
        ParameterView {
            name: self.name@,
            kind: self.kind,
            description: self.description@,
            required: self.required,
        }
    }
}

/// What an [`OperationDefinition`] is, as plain mathematical values.
#[verifier::ext_equal]
pub struct OperationView {
    pub name: Seq<char>,
    pub description: Seq<char>,
    pub parameters: Seq<ParameterView>,
}

/// An operation as remote callers discover it: its name, what it does, and the
/// fields of its payload. No other field is recognised.
#[derive(Debug, PartialEq, Eq)]
pub struct OperationDefinition {
    pub name: String,
    pub description: String,
    pub parameters: Vec<ParameterDefinition>,
}

impl View for OperationDefinition {
    type V = OperationView;

    open spec fn view(&self) -> OperationView {
        OperationView {
            name: self.name@,
            description: self.description@,
            parameters: self.parameters@.map_values(|parameter: ParameterDefinition| parameter@),
        }
    }
}

/// The description of `add_task`: two required strings, `title` and
/// `description`.
pub open spec fn add_task_definition() -> OperationView {
    OperationView {
        name: "add_task"@,
        description: "Add a new task to the task manager"@,
        parameters: seq![
            ParameterView {
                name: "title"@,
                kind: ParameterKind::Text,
                description: "The title of the task"@,
                required: true,
            },
            ParameterView {
                name: "description"@,
                kind: ParameterKind::Text,
                description: "A detailed description of the task"@,
                required: true,
            },
        ],
    }
}

/// The description of the `add_task` operation.
pub fn add_task_operation() -> (operation: OperationDefinition)
    ensures
        operation@ == add_task_definition(),
{
    let mut parameters: Vec<ParameterDefinition> = Vec::new();
    parameters.push(
        ParameterDefinition {
            name: "title".to_owned(),
            kind: ParameterKind::Text,
            description: "The title of the task".to_owned(),
            required: true,
        },
    );
    parameters.push(
        ParameterDefinition {
            name: "description".to_owned(),
            kind: ParameterKind::Text,
            description: "A detailed description of the task".to_owned(),
            required: true,
        },
    );
    OperationDefinition {
        name: "add_task".to_owned(),
        description: "Add a new task to the task manager".to_owned(),
        parameters,
    }
}

} // verus!
