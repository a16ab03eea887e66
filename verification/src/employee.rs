//! Employees: the entity, its statements and its stored form.

use vstd::prelude::*;
use crate::date::{Date, DateView};
use crate::laws::{
    lemma_empty_text_does_not_narrow, lemma_unset_filter_selects_every_row, searched, unset,
};
use crate::placeholders::{
    lemma_delete_placeholders, lemma_insert_placeholders, lemma_select_placeholders,
    lemma_update_placeholders, placeholders, plain, plain_columns,
};
use crate::query::{
    Statement, all_values, delete_sql, delete_statement, filter_values, insert_sql,
    insert_statement, present_values, select_sql, select_statement, update_of, update_sql,
    update_statement,
};
use crate::record::{
    Narrowed, OutOfRange, fits, flag_of, lemma_count_round_trip, lemma_flag_round_trip, narrow,
    narrowed, read_flag, stored_count, stored_flag,
};
use crate::schema::{Affinity, Column, ColumnView, column_views, create_table, create_table_sql};
use crate::value::{
    Decimal, Field, FieldView, Kind, ValueView, copy_text, date_view, field_views, text_view,
    widened,
};

verus! {

/// The table that holds the employees.
pub const EMPLOYEES: &'static str = "employees";

/// An employee of the shop. Every field is optional: a value with no field
/// set asks for every employee when it is used as a filter, and changes
/// nothing when it is used as an update.
#[derive(Clone, Debug, PartialEq)]
pub struct Employee {
    pub id: Option<u32>,
    pub name: Option<String>,
    pub surname: Option<String>,
    pub position: Option<String>,
    pub department: Option<String>,
    pub shift: Option<String>,
    pub salary: Option<Decimal>,
    pub phone_number: Option<String>,
    pub email: Option<String>,
    pub status: Option<bool>,
    pub note: Option<String>,
    pub hire_date: Option<Date>,
}

/// What an `Employee` is.
pub struct EmployeeView {
    pub id: Option<u32>,
    pub name: Option<Seq<char>>,
    pub surname: Option<Seq<char>>,
    pub position: Option<Seq<char>>,
    pub department: Option<Seq<char>>,
    pub shift: Option<Seq<char>>,
    pub salary: Option<Decimal>,
    pub phone_number: Option<Seq<char>>,
    pub email: Option<Seq<char>>,
    pub status: Option<bool>,
    pub note: Option<Seq<char>>,
    pub hire_date: Option<DateView>,
}

impl View for Employee {
    type V = EmployeeView;

    open spec fn view(&self) -> EmployeeView {
        EmployeeView {
            id: self.id,
            name: text_view(self.name),
            surname: text_view(self.surname),
            position: text_view(self.position),
            department: text_view(self.department),
            shift: text_view(self.shift),
            salary: self.salary,
            phone_number: text_view(self.phone_number),
            email: text_view(self.email),
            status: self.status,
            note: text_view(self.note),
            hire_date: date_view(self.hire_date),
        }
    }
}

impl EmployeeView {
    /// The employee with no field set.
    pub open spec fn empty() -> EmployeeView {
        EmployeeView {
            id: None,
            name: None,
            surname: None,
            position: None,
            department: None,
            shift: None,
            salary: None,
            phone_number: None,
            email: None,
            status: None,
            note: None,
            hire_date: None,
        }
    }

    /// The identifier as a column.
    pub open spec fn key(self) -> FieldView {
        FieldView::integer("id"@, widened(self.id))
    }

    /// The columns that hold the employee's data, in the table's order. The
    /// name, the surname and the note are searched by containment.
    pub open spec fn fields(self) -> Seq<FieldView> {
        seq![
            FieldView::text("name"@, Kind::Substring, self.name),
            FieldView::text("surname"@, Kind::Substring, self.surname),
            FieldView::text("position"@, Kind::Exact, self.position),
            FieldView::text("department"@, Kind::Exact, self.department),
            FieldView::text("shift"@, Kind::Exact, self.shift),
            FieldView::decimal("salary"@, self.salary),
            FieldView::text("phone_number"@, Kind::Exact, self.phone_number),
            FieldView::text("email"@, Kind::Exact, self.email),
            FieldView::flag("status"@, self.status),
            FieldView::text("note"@, Kind::Substring, self.note),
            FieldView::date("hire_date"@, self.hire_date),
        ]
    }

    /// The columns that a search looks at: the identifier, then the data.
    pub open spec fn filter_fields(self) -> Seq<FieldView> {
        seq![self.key()] + self.fields()
    }
}

impl Employee {
    /// An employee with the given fields.
    pub fn new(
        id_p: Option<u32>,
        name_p: Option<String>,
        surename_p: Option<String>,
        position_p: Option<String>,
        department_p: Option<String>,
        shift_p: Option<String>,
        salart_p: Option<Decimal>,
        phoen_number_p: Option<String>,
        email_p: Option<String>,
        status_p: Option<bool>,
        note_p: Option<String>,
        hire_date_p: Option<Date>,
    ) -> (employee: Employee)
        ensures
            employee == (Employee {
                id: id_p,
                name: name_p,
                surname: surename_p,
                position: position_p,
                department: department_p,
                shift: shift_p,
                salary: salart_p,
                phone_number: phoen_number_p,
                email: email_p,
                status: status_p,
                note: note_p,
                hire_date: hire_date_p,
            }),
    {
        Employee {
            id: id_p,
            name: name_p,
            surname: surename_p,
            position: position_p,
            department: department_p,
            shift: shift_p,
            salary: salart_p,
            phone_number: phoen_number_p,
            email: email_p,
            status: status_p,
            note: note_p,
            hire_date: hire_date_p,
        }
    }

    /// The employee with no field set.
    pub fn new_empty() -> (employee: Employee)
        ensures
            employee@ == EmployeeView::empty(),
    {
        Employee {
            id: None,
            name: None,
            surname: None,
            position: None,
            department: None,
            shift: None,
            salary: None,
            phone_number: None,
            email: None,
            status: None,
            note: None,
            hire_date: None,
        }
    }

    /// The same employee under the identifier `id`, whatever identifier it had.
    pub fn with_id(self, id: u32) -> (employee: Employee)
        ensures
            employee@ == self@.with_id(Some(id)),
    {
        let mut employee = self;
        employee.id = Some(id);
        employee
    }

    /// The columns that hold the employee's data, with their values.
    pub fn fields(&self) -> (fields: Vec<Field>)
        ensures
            field_views(fields@) == self@.fields(),
    {
        let mut fields: Vec<Field> = Vec::new();
        fields.push(Field::text("name", Kind::Substring, &self.name));
        fields.push(Field::text("surname", Kind::Substring, &self.surname));
        fields.push(Field::text("position", Kind::Exact, &self.position));
        fields.push(Field::text("department", Kind::Exact, &self.department));
        fields.push(Field::text("shift", Kind::Exact, &self.shift));
        fields.push(Field::decimal("salary", self.salary));
        fields.push(Field::text("phone_number", Kind::Exact, &self.phone_number));
        fields.push(Field::text("email", Kind::Exact, &self.email));
        fields.push(Field::flag("status", self.status));
        fields.push(Field::text("note", Kind::Substring, &self.note));
        fields.push(Field::date("hire_date", self.hire_date));
        proof {
            assert(field_views(fields@) =~= self@.fields());
        }
        fields
    }

    /// The columns that a search looks at, with their values.
    pub fn filter_fields(&self) -> (fields: Vec<Field>)
        ensures
            field_views(fields@) == self@.filter_fields(),
    {
        let mut fields: Vec<Field> = Vec::new();
        fields.push(Field::unsigned("id", self.id));
        let mut data = self.fields();
        let ghost columns = data@;
        fields.append(&mut data);
        proof {
            assert(field_views(fields@) =~= seq![self@.key()] + field_views(columns));
        }
        fields
    }

    /// The insertion of this employee as a new row. The identifier is left
    /// out: the store assigns one.
    pub fn insert_statement(&self) -> (statement: Statement)
        ensures
            statement@.sql == insert_sql(EMPLOYEES@, self@.fields()),
            statement@.params == all_values(self@.fields()),
    {
        let fields = self.fields();
        insert_statement(EMPLOYEES, &fields)
    }

    /// The removal of the employee `id`.
    pub fn delete_statement(id: u32) -> (statement: Statement)
        ensures
            statement@.sql == delete_sql(EMPLOYEES@),
            statement@.params == seq![Some(ValueView::Integer(id as int))],
    {
        delete_statement(EMPLOYEES, id)
    }

    /// The update that gives the stored employee `self.id` every field that
    /// is set here and leaves the others as they are stored. There is
    /// nothing to run where the identifier is absent or no other field is set.
    pub fn update_statement(&self) -> (statement: Option<Statement>)
        ensures
            match statement {
                Some(s) => update_of(EMPLOYEES@, self@.id, self@.fields()) == Some(s@),
                None => update_of(EMPLOYEES@, self@.id, self@.fields()) is None,
            },
    {
        let fields = self.fields();
        update_statement(EMPLOYEES, self.id, &fields)
    }

    /// The search for the employees that agree with every field set here.
    pub fn select_statement(&self) -> (statement: Statement)
        ensures
            statement@.sql == select_sql(EMPLOYEES@, self@.filter_fields()),
            statement@.params == filter_values(self@.filter_fields()),
    {
        let fields = self.filter_fields();
        select_statement(EMPLOYEES, &fields)
    }
}

/// A row of the employees' table as the store hands it out: identifiers and
/// flags are 64-bit integers.
#[derive(Clone, Debug, PartialEq)]
pub struct EmployeeRecord {
    pub id: Option<i64>,
    pub name: Option<String>,
    pub surname: Option<String>,
    pub position: Option<String>,
    pub department: Option<String>,
    pub shift: Option<String>,
    pub salary: Option<Decimal>,
    pub phone_number: Option<String>,
    pub email: Option<String>,
    pub status: Option<i64>,
    pub note: Option<String>,
    pub hire_date: Option<Date>,
}

/// What an `EmployeeRecord` is.
pub struct EmployeeRecordView {
    pub id: Option<i64>,
    pub name: Option<Seq<char>>,
    pub surname: Option<Seq<char>>,
    pub position: Option<Seq<char>>,
    pub department: Option<Seq<char>>,
    pub shift: Option<Seq<char>>,
    pub salary: Option<Decimal>,
    pub phone_number: Option<Seq<char>>,
    pub email: Option<Seq<char>>,
    pub status: Option<i64>,
    pub note: Option<Seq<char>>,
    pub hire_date: Option<DateView>,
}

impl View for EmployeeRecord {
    type V = EmployeeRecordView;

    open spec fn view(&self) -> EmployeeRecordView {
        EmployeeRecordView {
            id: self.id,
            name: text_view(self.name),
            surname: text_view(self.surname),
            position: text_view(self.position),
            department: text_view(self.department),
            shift: text_view(self.shift),
            salary: self.salary,
            phone_number: text_view(self.phone_number),
            email: text_view(self.email),
            status: self.status,
            note: text_view(self.note),
            hire_date: date_view(self.hire_date),
        }
    }
}

impl EmployeeRecordView {
    /// The row in which an employee is stored.
    pub open spec fn of(employee: EmployeeView) -> EmployeeRecordView {
        EmployeeRecordView {
            id: stored_count(employee.id),
            name: employee.name,
            surname: employee.surname,
            position: employee.position,
            department: employee.department,
            shift: employee.shift,
            salary: employee.salary,
            phone_number: employee.phone_number,
            email: employee.email,
            status: stored_flag(employee.status),
            note: employee.note,
            hire_date: employee.hire_date,
        }
    }

    /// Why a row cannot be read, if it cannot: its identifier does not fit.
    pub open spec fn refusal(self) -> Option<OutOfRange> {
        if !fits(self.id) {
            Some(OutOfRange { column: Narrowed::Id, value: self.id.unwrap() })
        } else {
            None
        }
    }

    /// The employee that a row stands for, where the row can be read.
    pub open spec fn employee(self) -> EmployeeView {
        EmployeeView {
            id: narrowed(self.id),
            name: self.name,
            surname: self.surname,
            position: self.position,
            department: self.department,
            shift: self.shift,
            salary: self.salary,
            phone_number: self.phone_number,
            email: self.email,
            status: flag_of(self.status),
            note: self.note,
            hire_date: self.hire_date,
        }
    }
}

impl EmployeeRecord {
    /// Whether `employees` are what the rows stand for, one for one and in the
    /// rows' order, every row being readable.
    pub open spec fn read_as(records: Seq<EmployeeRecord>, employees: Seq<Employee>) -> bool {
        &&& employees.len() == records.len()
        &&& forall|i: int|
            0 <= i < records.len() ==> (#[trigger] records[i])@.refusal() is None && employees[i]@
                == records[i]@.employee()
    }

    /// Whether `error` is the reason why the first row that cannot be read
    /// cannot be read.
    pub open spec fn refused_with(records: Seq<EmployeeRecord>, error: OutOfRange) -> bool {
        exists|i: int|
            {
                &&& 0 <= i < records.len()
                &&& (#[trigger] records[i])@.refusal() == Some(error)
                &&& forall|j: int| 0 <= j < i ==> (#[trigger] records[j])@.refusal() is None
            }
    }
}

impl Employee {
    /// The employee that a stored row stands for. A row whose identifier is
    /// negative or does not fit into 32 bits is refused.
    pub fn from_record(record: &EmployeeRecord) -> (result: Result<Employee, OutOfRange>)
        ensures
            match result {
                Ok(employee) => record@.refusal() is None && employee@ == record@.employee(),
                Err(error) => record@.refusal() == Some(error),
            },
    {
        let id = match narrow(Narrowed::Id, record.id) {
            Ok(id) => id,
            Err(error) => {
                return Err(error);
            },
        };
        Ok(
            Employee {
                id,
                name: copy_text(&record.name),
                surname: copy_text(&record.surname),
                position: copy_text(&record.position),
                department: copy_text(&record.department),
                shift: copy_text(&record.shift),
                salary: record.salary,
                phone_number: copy_text(&record.phone_number),
                email: copy_text(&record.email),
                status: read_flag(record.status),
                note: copy_text(&record.note),
                hire_date: record.hire_date,
            },
        )
    }
}

impl Employee {
    /// The employees that a list of stored rows stands for, in the rows' order.
    /// Where a row cannot be read the whole list is refused, with the reason
    /// of the first such row.
    pub fn from_records(records: &Vec<EmployeeRecord>) -> (result: Result<
        Vec<Employee>,
        OutOfRange,
    >)
        ensures
            match result {
                Ok(employees) => EmployeeRecord::read_as(records@, employees@),
                Err(error) => EmployeeRecord::refused_with(records@, error),
            },
    {
        let mut employees: Vec<Employee> = Vec::new();
        let mut i: usize = 0;
        while i < records.len()
            invariant
                i <= records.len(),
                employees@.len() == i,
                forall|k: int|
                    0 <= k < i ==> (#[trigger] records@[k])@.refusal() is None && employees@[k]@
                        == records@[k]@.employee(),
            decreases records.len() - i,
        {
            match Employee::from_record(&records[i]) {
                Ok(employee) => {
                    employees.push(employee);
                },
                Err(error) => {
                    assert(records@[i as int]@.refusal() == Some(error));
                    return Err(error);
                },
            }
            i += 1;
        }
        Ok(employees)
    }
}

impl EmployeeView {
    /// The same employee with each empty text that a search would look for
    /// by containment taken away.
    pub open spec fn without_empty_searches(self) -> EmployeeView {
        EmployeeView {
            name: searched(self.name),
            surname: searched(self.surname),
            note: searched(self.note),
            ..self
        }
    }

    /// The same employee with another identifier.
    pub open spec fn with_id(self, id: Option<u32>) -> EmployeeView {
        EmployeeView { id, ..self }
    }
}

/// The filter with no field set asks for every employee.
pub proof fn lemma_empty_filter_selects_every_employee()
    ensures
        select_sql(EMPLOYEES@, EmployeeView::empty().filter_fields()) == "SELECT * FROM "@
            + EMPLOYEES@ + " WHERE 1=1"@,
        filter_values(EmployeeView::empty().filter_fields()) == Seq::<
            Option<ValueView>,
        >::empty(),
{
    lemma_unset_filter_selects_every_row(EMPLOYEES@, EmployeeView::empty().filter_fields());
}

/// An empty name, surname or note in a filter narrows nothing: the search is
/// the one made with that field unset.
pub proof fn lemma_empty_texts_do_not_narrow_employees(employee: EmployeeView)
    ensures
        select_sql(EMPLOYEES@, employee.filter_fields()) == select_sql(
            EMPLOYEES@,
            employee.without_empty_searches().filter_fields(),
        ),
        filter_values(employee.filter_fields()) == filter_values(
            employee.without_empty_searches().filter_fields(),
        ),
{
    let first = employee.filter_fields();
    let second = if searched(employee.name) != employee.name {
        first.update(1, unset(first[1]))
    } else {
        first
    };
    if searched(employee.name) != employee.name {
        assert(employee.name.unwrap() =~= Seq::<char>::empty());
        lemma_empty_text_does_not_narrow(EMPLOYEES@, first, 1);
    }
    let third = if searched(employee.surname) != employee.surname {
        second.update(2, unset(second[2]))
    } else {
        second
    };
    if searched(employee.surname) != employee.surname {
        assert(employee.surname.unwrap() =~= Seq::<char>::empty());
        lemma_empty_text_does_not_narrow(EMPLOYEES@, second, 2);
    }
    let fourth = if searched(employee.note) != employee.note {
        third.update(10, unset(third[10]))
    } else {
        third
    };
    if searched(employee.note) != employee.note {
        assert(employee.note.unwrap() =~= Seq::<char>::empty());
        lemma_empty_text_does_not_narrow(EMPLOYEES@, third, 10);
    }
    assert(fourth =~= employee.without_empty_searches().filter_fields());
}

/// An update of an employee without an identifier runs nothing.
pub proof fn lemma_employee_update_needs_id(employee: EmployeeView)
    requires
        employee.id is None,
    ensures
        update_of(EMPLOYEES@, employee.id, employee.fields()) is None,
{
}

/// An insertion does not look at the identifier: two employees that differ
/// in nothing else are inserted by the same statement.
pub proof fn lemma_employee_insert_ignores_id(employee: EmployeeView, id: Option<u32>)
    ensures
        insert_sql(EMPLOYEES@, employee.with_id(id).fields()) == insert_sql(
            EMPLOYEES@,
            employee.fields(),
        ),
        all_values(employee.with_id(id).fields()) == all_values(employee.fields()),
{
    assert(employee.with_id(id).fields() =~= employee.fields());
}

/// An employee that is stored and read back is the same employee: its row
/// can always be read, and no field changes on the way.
pub proof fn lemma_employee_round_trip(employee: EmployeeView)
    ensures
        EmployeeRecordView::of(employee).refusal() is None,
        EmployeeRecordView::of(employee).employee() == employee,
{
    lemma_count_round_trip(employee.id);
    lemma_flag_round_trip(employee.status);
}

impl Employee {
    /// The data columns of the table, in the table's order. A row must hold
    /// a position; every other column may be empty.
    pub open spec fn schema() -> Seq<ColumnView> {
        seq![
            ColumnView { name: "name"@, affinity: Affinity::Text, required: false },
            ColumnView { name: "surname"@, affinity: Affinity::Text, required: false },
            ColumnView { name: "position"@, affinity: Affinity::Text, required: true },
            ColumnView { name: "department"@, affinity: Affinity::Text, required: false },
            ColumnView { name: "shift"@, affinity: Affinity::Text, required: false },
            ColumnView { name: "salary"@, affinity: Affinity::Real, required: false },
            ColumnView { name: "phone_number"@, affinity: Affinity::Text, required: false },
            ColumnView { name: "email"@, affinity: Affinity::Text, required: false },
            ColumnView { name: "status"@, affinity: Affinity::Integer, required: false },
            ColumnView { name: "note"@, affinity: Affinity::Text, required: false },
            ColumnView { name: "hire_date"@, affinity: Affinity::Text, required: false },
        ]
    }

    /// The data columns of the table.
    pub fn columns() -> (columns: Vec<Column>)
        ensures
            column_views(columns@) == Employee::schema(),
    {
        let mut columns: Vec<Column> = Vec::new();
        columns.push(Column { name: "name", affinity: Affinity::Text, required: false });
        columns.push(Column { name: "surname", affinity: Affinity::Text, required: false });
        columns.push(Column { name: "position", affinity: Affinity::Text, required: true });
        columns.push(Column { name: "department", affinity: Affinity::Text, required: false });
        columns.push(Column { name: "shift", affinity: Affinity::Text, required: false });
        columns.push(Column { name: "salary", affinity: Affinity::Real, required: false });
        columns.push(Column { name: "phone_number", affinity: Affinity::Text, required: false });
        columns.push(Column { name: "email", affinity: Affinity::Text, required: false });
        columns.push(Column { name: "status", affinity: Affinity::Integer, required: false });
        columns.push(Column { name: "note", affinity: Affinity::Text, required: false });
        columns.push(Column { name: "hire_date", affinity: Affinity::Text, required: false });
        proof {
            assert(column_views(columns@) =~= Employee::schema());
        }
        columns
    }

    /// The text that creates the table unless it is there already.
    pub fn create_table() -> (sql: String)
        ensures
            sql@ == create_table_sql(EMPLOYEES@, Employee::schema(), None),
    {
        let columns = Employee::columns();
        create_table(EMPLOYEES, &columns, None)
    }
}

/// The table has one data column for each field of an employee, under the
/// field's name and in the fields' order: an insertion names the columns
/// that the table has.
pub proof fn lemma_employee_fields_are_columns(employee: EmployeeView)
    ensures
        Employee::schema().len() == employee.fields().len(),
        forall|i: int|
            0 <= i < employee.fields().len() ==> (#[trigger] Employee::schema()[i]).name
                == employee.fields()[i].column,
{
}

/// The names of the table and of its columns hold no placeholder.
proof fn lemma_employee_names_are_plain(employee: EmployeeView)
    ensures
        plain(EMPLOYEES@),
        plain_columns(employee.fields()),
        plain_columns(employee.filter_fields()),
{
    reveal_strlit("employees");
    reveal_strlit("id");
    reveal_strlit("name");
    reveal_strlit("surname");
    reveal_strlit("position");
    reveal_strlit("department");
    reveal_strlit("shift");
    reveal_strlit("salary");
    reveal_strlit("phone_number");
    reveal_strlit("email");
    reveal_strlit("status");
    reveal_strlit("note");
    reveal_strlit("hire_date");
    let fields = employee.fields();
    assert forall|i: int| 0 <= i < fields.len() implies plain((#[trigger] fields[i]).column) by {
    }
    let filter_fields = employee.filter_fields();
    assert forall|i: int| 0 <= i < filter_fields.len() implies plain(
        (#[trigger] filter_fields[i]).column,
    ) by {
        if i > 0 {
            assert(filter_fields[i] == fields[i - 1]);
        }
    }
}

/// Every statement made for an employee has a parameter for each of its
/// placeholders, and no parameter more.
pub proof fn lemma_employee_statements_are_balanced(employee: EmployeeView)
    ensures
        placeholders(select_sql(EMPLOYEES@, employee.filter_fields())) == filter_values(
            employee.filter_fields(),
        ).len(),
        placeholders(insert_sql(EMPLOYEES@, employee.fields())) == all_values(
            employee.fields(),
        ).len(),
        placeholders(update_sql(EMPLOYEES@, employee.fields())) == present_values(
            employee.fields(),
        ).len() + 1,
        placeholders(delete_sql(EMPLOYEES@)) == 1,
{
    lemma_employee_names_are_plain(employee);
    lemma_select_placeholders(EMPLOYEES@, employee.filter_fields());
    lemma_insert_placeholders(EMPLOYEES@, employee.fields());
    lemma_update_placeholders(EMPLOYEES@, employee.fields());
    lemma_delete_placeholders(EMPLOYEES@);
}

} // verus!
