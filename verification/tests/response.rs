use task_manager::decimal::decimal_string;
use task_manager::operation::add_task_operation;
use task_manager::operation::AddTaskRequest;
use task_manager::operation::ParameterKind;
use task_manager::registry::TaskRegistry;
use task_manager::response::confirmation_message;
use task_manager::response::AddTaskResponse;
use task_manager::task::Task;

#[test]
fn decimal_of_single_digits() {
    let digits = ["0", "1", "2", "3", "4", "5", "6", "7", "8", "9"];
    for (n, text) in digits.iter().enumerate() {
        assert_eq!(decimal_string(n), *text);
    }
}

#[test]
fn decimal_of_longer_numbers() {
    assert_eq!(decimal_string(10), "10");
    assert_eq!(decimal_string(11), "11");
    assert_eq!(decimal_string(99), "99");
    assert_eq!(decimal_string(100), "100");
    assert_eq!(decimal_string(101), "101");
    assert_eq!(decimal_string(1000), "1000");
    assert_eq!(decimal_string(1234567890), "1234567890");
    assert_eq!(decimal_string(4294967295), "4294967295");
}

#[test]
fn decimal_of_the_largest_number() {
    assert_eq!(decimal_string(usize::MAX), format!("{}", usize::MAX));
    assert_eq!(decimal_string(usize::MAX - 1), format!("{}", usize::MAX - 1));
}

#[test]
fn decimal_agrees_with_std_formatting() {
    let mut n: usize = 0;
    for step in 0..2000usize {
        assert_eq!(decimal_string(n), format!("{}", n));
        n = n.wrapping_mul(31).wrapping_add(step).wrapping_add(7);
    }
}

#[test]
fn confirmation_for_the_first_task() {
    assert_eq!(
        confirmation_message("Buy milk", 1),
        "Task 'Buy milk' added successfully with ID 1"
    );
}

#[test]
fn confirmation_keeps_the_title_as_it_is() {
    assert_eq!(
        confirmation_message("it's \"odd\"", 120),
        "Task 'it's \"odd\"' added successfully with ID 120"
    );
    assert_eq!(confirmation_message("", 7), "Task '' added successfully with ID 7");
}

#[test]
fn success_payload_for_a_task() {
    let task = Task {
        id: 3,
        title: "Call Ana".to_string(),
        description: "about Friday".to_string(),
        completed: false,
    };
    let response = AddTaskResponse::created(task.clone());
    assert!(response.success);
    assert_eq!(response.task, task);
    assert_eq!(response.message, "Task 'Call Ana' added successfully with ID 3");
}

#[test]
fn add_task_on_an_empty_registry() {
    let mut registry = TaskRegistry::new();
    let request = AddTaskRequest {
        title: "Buy milk".to_string(),
        description: "2% organic".to_string(),
    };
    let response = registry.add_task(request).unwrap();
    assert_eq!(
        response,
        AddTaskResponse {
            success: true,
            task: Task {
                id: 1,
                title: "Buy milk".to_string(),
                description: "2% organic".to_string(),
                completed: false,
            },
            message: "Task 'Buy milk' added successfully with ID 1".to_string(),
        }
    );
    assert_eq!(registry.len(), 1);
    assert_eq!(registry.get(0), Some(&response.task));
}

#[test]
fn add_task_numbers_its_messages() {
    let mut registry = TaskRegistry::new();
    for i in 1..=12usize {
        let request = AddTaskRequest { title: format!("job {}", i), description: String::new() };
        let response = registry.add_task(request).unwrap();
        assert!(response.success);
        assert_eq!(response.task.id, i);
        assert_eq!(
            response.message,
            format!("Task 'job {}' added successfully with ID {}", i, i)
        );
    }
    assert_eq!(registry.len(), 12);
}

#[test]
fn add_task_and_create_task_share_the_counter() {
    let mut registry = TaskRegistry::new();
    let first = registry.create_task("a".to_string(), "".to_string()).unwrap();
    let second = registry
        .add_task(AddTaskRequest { title: "b".to_string(), description: "".to_string() })
        .unwrap();
    let third = registry.create_task("c".to_string(), "".to_string()).unwrap();
    assert_eq!((first.id, second.task.id, third.id), (1, 2, 3));
    assert_eq!(registry.get(1), Some(&second.task));
}

#[test]
fn add_task_is_described_for_discovery() {
    let operation = add_task_operation();
    assert_eq!(operation.name, "add_task");
    assert_eq!(operation.description, "Add a new task to the task manager");
    assert_eq!(operation.parameters.len(), 2);

    let title = &operation.parameters[0];
    assert_eq!(title.name, "title");
    assert_eq!(title.kind, ParameterKind::Text);
    assert_eq!(title.description, "The title of the task");
    assert!(title.required);

    let description = &operation.parameters[1];
    assert_eq!(description.name, "description");
    assert_eq!(description.kind, ParameterKind::Text);
    assert_eq!(description.description, "A detailed description of the task");
    assert!(description.required);
}
