use inventory_store::employee::Employee;
use inventory_store::product::Product;
use inventory_store::schema::{create_table, Affinity, Column, Reference};

#[test]
fn employees_table() {
    assert_eq!(
        Employee::create_table(),
        "CREATE TABLE IF NOT EXISTS employees (id INTEGER PRIMARY KEY AUTOINCREMENT, \
         name TEXT, surname TEXT, position TEXT NOT NULL, department TEXT, shift TEXT, \
         salary REAL, phone_number TEXT, email TEXT, status INTEGER, note TEXT, hire_date TEXT)"
    );
}

#[test]
fn products_table() {
    assert_eq!(
        Product::create_table(),
        "CREATE TABLE IF NOT EXISTS products (id INTEGER PRIMARY KEY AUTOINCREMENT, \
         name TEXT NOT NULL, category TEXT NOT NULL, quantity INTEGER NOT NULL, status INTEGER, \
         bar_code INTEGER NOT NULL, cost_price REAL NOT NULL, sell_price REAL NOT NULL, \
         description TEXT, brand TEXT, supplier TEXT, employee_id INTEGER, date_added TEXT, \
         date_remove TEXT, FOREIGN KEY (employee_id) REFERENCES employees(id))"
    );
}

#[test]
fn columns_are_the_fields() {
    let columns: Vec<&str> = Employee::columns().iter().map(|c| c.name).collect();
    let fields: Vec<&str> = Employee::new_empty().fields().iter().map(|f| f.column).collect();
    assert_eq!(columns, fields);
    assert_eq!(columns.len(), 11);

    let columns: Vec<&str> = Product::columns().iter().map(|c| c.name).collect();
    let fields: Vec<&str> = Product::new_empty().fields().iter().map(|f| f.column).collect();
    assert_eq!(columns, fields);
    assert_eq!(columns.len(), 13);
}

#[test]
fn a_search_looks_at_the_identifier_first() {
    let fields = Employee::new_empty().filter_fields();
    assert_eq!(fields.len(), 12);
    assert_eq!(fields[0].column, "id");
    assert_eq!(fields[1].column, "name");
    let fields = Product::new_empty().filter_fields();
    assert_eq!(fields.len(), 14);
    assert_eq!(fields[0].column, "id");
}

#[test]
fn a_table_of_any_columns() {
    let columns = vec![
        Column { name: "title", affinity: Affinity::Text, required: true },
        Column { name: "price", affinity: Affinity::Real, required: false },
    ];
    assert_eq!(
        create_table("books", &columns, None),
        "CREATE TABLE IF NOT EXISTS books (id INTEGER PRIMARY KEY AUTOINCREMENT, \
         title TEXT NOT NULL, price REAL)"
    );
    assert_eq!(
        create_table("books", &vec![], Some(Reference { column: "shelf", table: "shelves" })),
        "CREATE TABLE IF NOT EXISTS books (id INTEGER PRIMARY KEY AUTOINCREMENT, \
         FOREIGN KEY (shelf) REFERENCES shelves(id))"
    );
}
