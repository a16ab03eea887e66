use inventory_store::date::Date;
use inventory_store::employee::Employee;
use inventory_store::product::Product;
use inventory_store::query::{
    delete_statement, insert_statement, select_statement, update_statement,
};
use inventory_store::value::{Decimal, Field, Kind, Value};

fn text(s: &str) -> Option<String> {
    Some(s.to_string())
}

fn bound_text(s: &str) -> Option<Value> {
    Some(Value::Text(s.to_string()))
}

#[test]
fn empty_employee_filter_selects_every_row() {
    let statement = Employee::new_empty().select_statement();
    assert_eq!(statement.sql, "SELECT * FROM employees WHERE 1=1");
    assert_eq!(statement.params, vec![]);
}

#[test]
fn empty_product_filter_selects_every_row() {
    let statement = Product::new_empty().select_statement();
    assert_eq!(statement.sql, "SELECT * FROM products WHERE 1=1");
    assert_eq!(statement.params, vec![]);
}

#[test]
fn name_filter_searches_by_containment() {
    let mut filter = Employee::new_empty();
    filter.name = text("Jan");
    let statement = filter.select_statement();
    assert_eq!(statement.sql, "SELECT * FROM employees WHERE 1=1 AND name LIKE ?");
    assert_eq!(statement.params, vec![bound_text("%Jan%")]);
}

#[test]
fn empty_text_in_a_containment_field_is_no_constraint() {
    let mut filter = Employee::new_empty();
    filter.name = text("");
    filter.surname = text("");
    filter.note = text("");
    assert_eq!(filter.select_statement(), Employee::new_empty().select_statement());

    let mut filter = Product::new_empty();
    filter.name = text("");
    filter.description = text("");
    assert_eq!(filter.select_statement(), Product::new_empty().select_statement());
}

#[test]
fn empty_text_in_an_exact_field_is_a_constraint() {
    let mut filter = Employee::new_empty();
    filter.position = text("");
    let statement = filter.select_statement();
    assert_eq!(statement.sql, "SELECT * FROM employees WHERE 1=1 AND position = ?");
    assert_eq!(statement.params, vec![bound_text("")]);
}

#[test]
fn exact_field_filters_by_equality() {
    let mut filter = Employee::new_empty();
    filter.position = text("Cashier");
    let statement = filter.select_statement();
    assert_eq!(statement.sql, "SELECT * FROM employees WHERE 1=1 AND position = ?");
    assert_eq!(statement.params, vec![bound_text("Cashier")]);
}

#[test]
fn unset_flag_is_not_a_false_flag() {
    let mut filter = Employee::new_empty();
    filter.status = Some(false);
    let statement = filter.select_statement();
    assert_eq!(statement.sql, "SELECT * FROM employees WHERE 1=1 AND status = ?");
    assert_eq!(statement.params, vec![Some(Value::Flag(false))]);
    assert_ne!(statement, Employee::new_empty().select_statement());
}

#[test]
fn employee_filter_keeps_the_order_of_the_table() {
    let date = Date::from_ymd(2024, 2, 29).unwrap();
    let salary = Decimal { bits: 1500.5f64.to_bits() };
    let filter = Employee::new(
        Some(7),
        text("Jana"),
        text("Nova"),
        text("Cashier"),
        text("Front"),
        text("Morning"),
        Some(salary),
        text("0900"),
        text("jana@shop.sk"),
        Some(true),
        text("part"),
        Some(date),
    );
    let statement = filter.select_statement();
    assert_eq!(
        statement.sql,
        "SELECT * FROM employees WHERE 1=1 AND id = ? AND name LIKE ? AND surname LIKE ? \
         AND position = ? AND department = ? AND shift = ? AND salary = ? AND phone_number = ? \
         AND email = ? AND status = ? AND note LIKE ? AND hire_date = ?"
    );
    assert_eq!(
        statement.params,
        vec![
            Some(Value::Integer(7)),
            bound_text("%Jana%"),
            bound_text("%Nova%"),
            bound_text("Cashier"),
            bound_text("Front"),
            bound_text("Morning"),
            Some(Value::Real(salary)),
            bound_text("0900"),
            bound_text("jana@shop.sk"),
            Some(Value::Flag(true)),
            bound_text("%part%"),
            Some(Value::Date(date)),
        ]
    );
}

#[test]
fn product_filter_keeps_the_order_of_the_table() {
    let added = Date::from_ymd(2023, 12, 31).unwrap();
    let removed = Date::from_ymd(2024, 1, 1).unwrap();
    let cost = Decimal { bits: 0.5f64.to_bits() };
    let sell = Decimal { bits: 0.75f64.to_bits() };
    let filter = Product::new(
        Some(1),
        text("Milk"),
        text("Dairy"),
        Some(10),
        Some(false),
        Some(8_586_000_000_000),
        Some(cost),
        Some(sell),
        text("fresh"),
        text("Rajo"),
        text("Farm"),
        Some(2),
        Some(added),
        Some(removed),
    );
    let statement = filter.select_statement();
    assert_eq!(
        statement.sql,
        "SELECT * FROM products WHERE 1=1 AND id = ? AND name LIKE ? AND category = ? \
         AND quantity = ? AND status = ? AND bar_code = ? AND cost_price = ? AND sell_price = ? \
         AND description LIKE ? AND brand = ? AND supplier = ? AND employee_id = ? \
         AND date_added = ? AND date_remove = ?"
    );
    assert_eq!(
        statement.params,
        vec![
            Some(Value::Integer(1)),
            bound_text("%Milk%"),
            bound_text("Dairy"),
            Some(Value::Integer(10)),
            Some(Value::Flag(false)),
            Some(Value::Integer(8_586_000_000_000)),
            Some(Value::Real(cost)),
            Some(Value::Real(sell)),
            bound_text("%fresh%"),
            bound_text("Rajo"),
            bound_text("Farm"),
            Some(Value::Integer(2)),
            Some(Value::Date(added)),
            Some(Value::Date(removed)),
        ]
    );
}

#[test]
fn largest_identifier_is_bound_whole() {
    let mut filter = Product::new_empty();
    filter.id = Some(u32::MAX);
    filter.quantity = Some(u32::MAX);
    let statement = filter.select_statement();
    assert_eq!(
        statement.params,
        vec![Some(Value::Integer(4_294_967_295)), Some(Value::Integer(4_294_967_295))]
    );
}

#[test]
fn update_without_id_runs_nothing() {
    let mut employee = Employee::new_empty();
    employee.department = text("Ops");
    assert_eq!(employee.update_statement(), None);

    let mut product = Product::new_empty();
    product.quantity = Some(3);
    assert_eq!(product.update_statement(), None);
}

#[test]
fn update_without_fields_runs_nothing() {
    let mut employee = Employee::new_empty();
    employee.id = Some(1);
    assert_eq!(employee.update_statement(), None);

    let mut product = Product::new_empty();
    product.id = Some(1);
    assert_eq!(product.update_statement(), None);
}

#[test]
fn update_assigns_only_the_fields_that_are_set() {
    let mut employee = Employee::new_empty();
    employee.id = Some(2);
    employee.department = text("Ops");
    let statement = employee.update_statement().unwrap();
    assert_eq!(statement.sql, "UPDATE employees SET department = ? WHERE id = ?");
    assert_eq!(statement.params, vec![bound_text("Ops"), Some(Value::Integer(2))]);
}

#[test]
fn update_binds_the_identifier_last() {
    let mut product = Product::new_empty();
    product.id = Some(9);
    product.name = text("");
    product.quantity = Some(0);
    product.status = Some(false);
    product.date_remove = Date::from_ymd(2025, 6, 30);
    let statement = product.update_statement().unwrap();
    assert_eq!(
        statement.sql,
        "UPDATE products SET name = ?, quantity = ?, status = ?, date_remove = ? WHERE id = ?"
    );
    assert_eq!(
        statement.params,
        vec![
            bound_text(""),
            Some(Value::Integer(0)),
            Some(Value::Flag(false)),
            Some(Value::Date(Date::from_ymd(2025, 6, 30).unwrap())),
            Some(Value::Integer(9)),
        ]
    );
}

#[test]
fn update_of_every_employee_field() {
    let date = Date::from_ymd(2020, 1, 15).unwrap();
    let salary = Decimal { bits: 900.0f64.to_bits() };
    let employee = Employee::new(
        Some(3),
        text("a"),
        text("b"),
        text("c"),
        text("d"),
        text("e"),
        Some(salary),
        text("f"),
        text("g"),
        Some(true),
        text("h"),
        Some(date),
    );
    let statement = employee.update_statement().unwrap();
    assert_eq!(
        statement.sql,
        "UPDATE employees SET name = ?, surname = ?, position = ?, department = ?, shift = ?, \
         salary = ?, phone_number = ?, email = ?, status = ?, note = ?, hire_date = ? \
         WHERE id = ?"
    );
    assert_eq!(statement.params.len(), 12);
    assert_eq!(statement.params[0], bound_text("a"));
    assert_eq!(statement.params[10], Some(Value::Date(date)));
    assert_eq!(statement.params[11], Some(Value::Integer(3)));
}

#[test]
fn insert_leaves_the_identifier_out() {
    let mut employee = Employee::new_empty();
    employee.id = Some(99);
    employee.name = text("Jana");
    employee.position = text("Cashier");
    let statement = employee.insert_statement();
    assert_eq!(
        statement.sql,
        "INSERT INTO employees (name, surname, position, department, shift, salary, \
         phone_number, email, status, note, hire_date) VALUES (?, ?, ?, ?, ?, ?, ?, ?, ?, ?, ?)"
    );
    assert_eq!(
        statement.params,
        vec![
            bound_text("Jana"),
            None,
            bound_text("Cashier"),
            None,
            None,
            None,
            None,
            None,
            None,
            None,
            None,
        ]
    );
    employee.id = None;
    assert_eq!(employee.insert_statement(), statement);
}

#[test]
fn insert_of_a_product_binds_every_column() {
    let mut product = Product::new_empty();
    product.name = text("Milk");
    product.quantity = Some(4);
    product.bar_code = Some(-1);
    let statement = product.insert_statement();
    assert_eq!(
        statement.sql,
        "INSERT INTO products (name, category, quantity, status, bar_code, cost_price, \
         sell_price, description, brand, supplier, employee_id, date_added, date_remove) \
         VALUES (?, ?, ?, ?, ?, ?, ?, ?, ?, ?, ?, ?, ?)"
    );
    assert_eq!(statement.params.len(), 13);
    assert_eq!(statement.params[0], bound_text("Milk"));
    assert_eq!(statement.params[1], None);
    assert_eq!(statement.params[2], Some(Value::Integer(4)));
    assert_eq!(statement.params[4], Some(Value::Integer(-1)));
}

#[test]
fn delete_names_the_row() {
    let statement = Employee::delete_statement(5);
    assert_eq!(statement.sql, "DELETE FROM employees WHERE id = ?");
    assert_eq!(statement.params, vec![Some(Value::Integer(5))]);

    let statement = Product::delete_statement(0);
    assert_eq!(statement.sql, "DELETE FROM products WHERE id = ?");
    assert_eq!(statement.params, vec![Some(Value::Integer(0))]);
}

#[test]
fn builders_take_any_table_and_fields() {
    let fields = vec![
        Field::text("title", Kind::Substring, &text("x")),
        Field::integer("pages", Some(-3)),
        Field::flag("lent", None),
    ];
    let select = select_statement("books", &fields);
    assert_eq!(select.sql, "SELECT * FROM books WHERE 1=1 AND title LIKE ? AND pages = ?");
    assert_eq!(select.params, vec![bound_text("%x%"), Some(Value::Integer(-3))]);

    let insert = insert_statement("books", &fields);
    assert_eq!(insert.sql, "INSERT INTO books (title, pages, lent) VALUES (?, ?, ?)");
    assert_eq!(insert.params, vec![bound_text("x"), Some(Value::Integer(-3)), None]);

    let update = update_statement("books", Some(1), &fields).unwrap();
    assert_eq!(update.sql, "UPDATE books SET title = ?, pages = ? WHERE id = ?");
    assert_eq!(
        update.params,
        vec![bound_text("x"), Some(Value::Integer(-3)), Some(Value::Integer(1))]
    );

    let delete = delete_statement("books", 1);
    assert_eq!(delete.sql, "DELETE FROM books WHERE id = ?");
}

#[test]
fn builders_with_no_field() {
    let fields: Vec<Field> = vec![];
    assert_eq!(select_statement("t", &fields).sql, "SELECT * FROM t WHERE 1=1");
    assert_eq!(insert_statement("t", &fields).sql, "INSERT INTO t () VALUES ()");
    assert_eq!(update_statement("t", Some(1), &fields), None);
}

#[test]
fn containment_applies_to_texts_only() {
    let fields = vec![Field {
        column: "pages",
        kind: Kind::Substring,
        value: Some(Value::Integer(12)),
    }];
    let select = select_statement("books", &fields);
    assert_eq!(select.sql, "SELECT * FROM books WHERE 1=1 AND pages = ?");
    assert_eq!(select.params, vec![Some(Value::Integer(12))]);
}

#[test]
fn a_value_is_bound_and_never_written_into_the_text() {
    let mut filter = Employee::new_empty();
    filter.name = text("x' OR '1'='1");
    filter.position = text("'; DROP TABLE employees; --");
    let statement = filter.select_statement();
    assert_eq!(
        statement.sql,
        "SELECT * FROM employees WHERE 1=1 AND name LIKE ? AND position = ?"
    );
    assert_eq!(
        statement.params,
        vec![bound_text("%x' OR '1'='1%"), bound_text("'; DROP TABLE employees; --")]
    );
}

#[test]
fn the_identifier_of_the_path_wins() {
    let mut employee = Employee::new_empty();
    employee.id = Some(1);
    employee.shift = text("Night");
    let employee = employee.with_id(8);
    assert_eq!(employee.id, Some(8));
    assert_eq!(employee.shift, text("Night"));
    let statement = employee.update_statement().unwrap();
    assert_eq!(statement.params, vec![bound_text("Night"), Some(Value::Integer(8))]);

    let product = Product::new_empty().with_id(4);
    assert_eq!(product.id, Some(4));
}

fn marks(sql: &str) -> usize {
    sql.chars().filter(|c| *c == '?').count()
}

#[test]
fn every_placeholder_has_its_parameter() {
    let date = Date::from_ymd(2024, 2, 29).unwrap();
    let mut employees = vec![Employee::new_empty()];
    let mut some = Employee::new_empty();
    some.id = Some(1);
    some.name = text("");
    some.note = text("n");
    some.hire_date = Some(date);
    employees.push(some);
    for employee in &employees {
        let select = employee.select_statement();
        assert_eq!(marks(&select.sql), select.params.len());
        let insert = employee.insert_statement();
        assert_eq!(marks(&insert.sql), insert.params.len());
        assert_eq!(insert.params.len(), 11);
        if let Some(update) = employee.update_statement() {
            assert_eq!(marks(&update.sql), update.params.len());
        }
    }
    let mut product = Product::new_empty();
    product.id = Some(2);
    product.description = text("d");
    product.supplier = text("");
    let select = product.select_statement();
    assert_eq!(marks(&select.sql), 3);
    assert_eq!(select.params.len(), 3);
    let insert = product.insert_statement();
    assert_eq!(marks(&insert.sql), 13);
    assert_eq!(insert.params.len(), 13);
    let update = product.update_statement().unwrap();
    assert_eq!(marks(&update.sql), 3);
    assert_eq!(update.params.len(), 3);
    let delete = Product::delete_statement(2);
    assert_eq!(marks(&delete.sql), 1);
    assert_eq!(delete.params.len(), 1);
}
