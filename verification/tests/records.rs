use inventory_store::date::Date;
use inventory_store::employee::{Employee, EmployeeRecord};
use inventory_store::product::{Product, ProductRecord};
use inventory_store::record::{narrow, read_flag, Narrowed, OutOfRange};
use inventory_store::value::Decimal;

fn employee_row(id: Option<i64>, status: Option<i64>) -> EmployeeRecord {
    EmployeeRecord {
        id,
        name: Some("Jana".to_string()),
        surname: None,
        position: Some("Cashier".to_string()),
        department: None,
        shift: None,
        salary: Some(Decimal { bits: 1200.0f64.to_bits() }),
        phone_number: None,
        email: None,
        status,
        note: None,
        hire_date: Date::from_ymd(2021, 5, 1),
    }
}

fn product_row(id: Option<i64>, quantity: Option<i64>, employee_id: Option<i64>) -> ProductRecord {
    ProductRecord {
        id,
        name: Some("Milk".to_string()),
        category: Some("Dairy".to_string()),
        quantity,
        status: Some(0),
        bar_code: Some(-7),
        cost_price: None,
        sell_price: None,
        description: None,
        brand: None,
        supplier: None,
        employee_id,
        date_added: None,
        date_remove: None,
    }
}

#[test]
fn narrow_keeps_what_fits() {
    assert_eq!(narrow(Narrowed::Id, None), Ok(None));
    assert_eq!(narrow(Narrowed::Id, Some(0)), Ok(Some(0)));
    assert_eq!(narrow(Narrowed::Id, Some(4_294_967_295)), Ok(Some(u32::MAX)));
}

#[test]
fn narrow_refuses_what_does_not_fit() {
    assert_eq!(
        narrow(Narrowed::Quantity, Some(4_294_967_296)),
        Err(OutOfRange { column: Narrowed::Quantity, value: 4_294_967_296 })
    );
    assert_eq!(
        narrow(Narrowed::Id, Some(-1)),
        Err(OutOfRange { column: Narrowed::Id, value: -1 })
    );
    assert_eq!(
        narrow(Narrowed::EmployeeId, Some(i64::MIN)),
        Err(OutOfRange { column: Narrowed::EmployeeId, value: i64::MIN })
    );
}

#[test]
fn flag_has_three_states() {
    assert_eq!(read_flag(None), None);
    assert_eq!(read_flag(Some(1)), Some(true));
    assert_eq!(read_flag(Some(0)), Some(false));
    assert_eq!(read_flag(Some(2)), Some(false));
    assert_eq!(read_flag(Some(-1)), Some(false));
}

#[test]
fn employee_row_is_read() {
    let employee = Employee::from_record(&employee_row(Some(3), Some(1))).unwrap();
    assert_eq!(employee.id, Some(3));
    assert_eq!(employee.name, Some("Jana".to_string()));
    assert_eq!(employee.surname, None);
    assert_eq!(employee.position, Some("Cashier".to_string()));
    assert_eq!(employee.salary, Some(Decimal { bits: 1200.0f64.to_bits() }));
    assert_eq!(employee.status, Some(true));
    assert_eq!(employee.hire_date, Date::from_ymd(2021, 5, 1));
}

#[test]
fn employee_row_without_status_has_no_status() {
    let employee = Employee::from_record(&employee_row(Some(3), None)).unwrap();
    assert_eq!(employee.status, None);
}

#[test]
fn employee_row_with_an_identifier_too_large_is_refused() {
    assert_eq!(
        Employee::from_record(&employee_row(Some(1 << 32), Some(1))),
        Err(OutOfRange { column: Narrowed::Id, value: 1 << 32 })
    );
}

#[test]
fn product_row_is_read() {
    let product = Product::from_record(&product_row(Some(1), Some(12), Some(2))).unwrap();
    assert_eq!(product.id, Some(1));
    assert_eq!(product.quantity, Some(12));
    assert_eq!(product.employee_id, Some(2));
    assert_eq!(product.status, Some(false));
    assert_eq!(product.bar_code, Some(-7));
    assert_eq!(product.name, Some("Milk".to_string()));
}

#[test]
fn product_row_names_the_first_column_that_does_not_fit() {
    assert_eq!(
        Product::from_record(&product_row(Some(-1), Some(-2), Some(-3))),
        Err(OutOfRange { column: Narrowed::Id, value: -1 })
    );
    assert_eq!(
        Product::from_record(&product_row(Some(1), Some(-2), Some(-3))),
        Err(OutOfRange { column: Narrowed::Quantity, value: -2 })
    );
    assert_eq!(
        Product::from_record(&product_row(Some(1), Some(2), Some(-3))),
        Err(OutOfRange { column: Narrowed::EmployeeId, value: -3 })
    );
}

#[test]
fn rows_are_read_in_order() {
    let rows = vec![employee_row(Some(2), None), employee_row(Some(1), Some(0))];
    let employees = Employee::from_records(&rows).unwrap();
    assert_eq!(employees.len(), 2);
    assert_eq!(employees[0].id, Some(2));
    assert_eq!(employees[1].id, Some(1));
    assert_eq!(employees[1].status, Some(false));
    assert_eq!(Employee::from_records(&vec![]), Ok(vec![]));
}

#[test]
fn one_unreadable_row_refuses_the_list() {
    let rows = vec![
        product_row(Some(1), None, None),
        product_row(Some(2), Some(-5), None),
        product_row(Some(-3), None, None),
    ];
    assert_eq!(
        Product::from_records(&rows),
        Err(OutOfRange { column: Narrowed::Quantity, value: -5 })
    );
}

#[test]
fn stored_employee_comes_back() {
    let employee = Employee::new(
        Some(u32::MAX),
        Some("Jana".to_string()),
        None,
        Some("Cashier".to_string()),
        None,
        None,
        None,
        None,
        None,
        Some(false),
        Some(String::new()),
        Date::from_ymd(-1, 12, 31),
    );
    let row = EmployeeRecord {
        id: employee.id.map(i64::from),
        name: employee.name.clone(),
        surname: employee.surname.clone(),
        position: employee.position.clone(),
        department: employee.department.clone(),
        shift: employee.shift.clone(),
        salary: employee.salary,
        phone_number: employee.phone_number.clone(),
        email: employee.email.clone(),
        status: employee.status.map(i64::from),
        note: employee.note.clone(),
        hire_date: employee.hire_date,
    };
    assert_eq!(Employee::from_record(&row), Ok(employee));
}
