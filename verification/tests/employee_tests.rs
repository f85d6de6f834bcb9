use rust_features::employee::{algebraic_data_type, employee_info, Employee};

#[test]
fn test_worker_line() {
    let bob = Employee::Worker {
        name: "Bob".to_string(),
        manager: "Alice".to_string(),
    };
    assert_eq!(employee_info(&bob), "Worker: Bob managed by Alice");
}

#[test]
fn test_manager_line() {
    let bob = Employee::Worker {
        name: "Bob".to_string(),
        manager: "Alice".to_string(),
    };
    let charles = Employee::Worker {
        name: "Charles".to_string(),
        manager: "Alice".to_string(),
    };
    let alice = Employee::Manager {
        name: "Alice".to_string(),
        subordinates: vec![Box::new(bob), Box::new(charles)],
    };
    assert_eq!(employee_info(&alice), "Manager: Alice with 2 subordinates");
}

#[test]
fn test_manager_without_subordinates() {
    let dana = Employee::Manager {
        name: "Dana".to_string(),
        subordinates: vec![],
    };
    assert_eq!(employee_info(&dana), "Manager: Dana with 0 subordinates");
}

#[test]
fn test_algebraic_data_type_lines() {
    let lines = algebraic_data_type();
    assert_eq!(lines.len(), 3);
    assert_eq!(lines[0], "Worker: Bob managed by Alice");
    assert_eq!(lines[1], "Worker: Charles managed by Alice");
    assert_eq!(lines[2], "Manager: Alice with 2 subordinates");
}
