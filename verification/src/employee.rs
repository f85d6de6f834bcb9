use vstd::prelude::*;
use vstd::string::StringExecFns;

use crate::decimal::{spec_decimal_nat, u64_to_decimal};

verus! {

pub type EmployeeName = String;

/// An employee is either a manager, with the workers reporting to them,
/// or a worker, with the name of their manager.
pub enum Employee {
    Manager { name: EmployeeName, subordinates: Vec<Box<Employee>> },
    Worker { name: EmployeeName, manager: String },
}

/// The line describing a manager: their name and how many subordinates
/// they have.
pub open spec fn spec_manager_line(name: Seq<char>, subordinates: nat) -> Seq<char> {
    "Manager: "@ + name + " with "@ + spec_decimal_nat(subordinates) + " subordinates"@
}

/// The line describing a worker: their name and their manager's.
pub open spec fn spec_worker_line(name: Seq<char>, manager: Seq<char>) -> Seq<char> {
    "Worker: "@ + name + " managed by "@ + manager
}

/// The line describing an employee, picked by their kind.
pub open spec fn spec_employee_info(e: Employee) -> Seq<char> {
    match e {
        Employee::Manager { name, subordinates } => spec_manager_line(
            name@,
            subordinates.len() as nat,
        ),
        Employee::Worker { name, manager } => spec_worker_line(name@, manager@),
    }
}

/// Describes an employee as one line of text, saying whether they manage
/// or are managed.
pub fn employee_info(employee: &Employee) -> (r: String)
    ensures
        r@ == spec_employee_info(*employee),
{
    match employee {
        Employee::Manager { name, subordinates } => {
            let mut s = "Manager: ".to_owned();
            s.append(name.as_str());
            s.append(" with ");
            let count = u64_to_decimal(subordinates.len() as u64);
            s.append(count.as_str());
            s.append(" subordinates");
            s
        },
        Employee::Worker { name, manager } => {
            let mut s = "Worker: ".to_owned();
            s.append(name.as_str());
            s.append(" managed by ");
            s.append(manager.as_str());
            s
        },
    }
}

/// Builds the sample staff — two workers and the manager both report to —
/// and returns their description lines, workers first.
pub fn algebraic_data_type() -> (r: Vec<String>)
    ensures
        r@.len() == 3,
        r@[0]@ == spec_worker_line("Bob"@, "Alice"@),
        r@[1]@ == spec_worker_line("Charles"@, "Alice"@),
        r@[2]@ == spec_manager_line("Alice"@, 2),
{
    let bob = Employee::Worker { name: "Bob".to_owned(), manager: "Alice".to_owned() };
    let charles = Employee::Worker { name: "Charles".to_owned(), manager: "Alice".to_owned() };
    let mut lines: Vec<String> = Vec::new();
    lines.push(employee_info(&bob));
    lines.push(employee_info(&charles));
    let alice = Employee::Manager {
        name: "Alice".to_owned(),
        subordinates: vec![Box::new(bob), Box::new(charles)],
    };
    lines.push(employee_info(&alice));
    lines
}

} // verus!
