//! The tables of the store and the statements that create them.

use vstd::prelude::*;

verus! {

/// The storage class that a column prefers.
#[derive(Clone, Copy, Debug, PartialEq, Eq, Structural)]
pub enum Affinity {
    Integer,
    Real,
    Text,
}

/// A data column of a table: its name, its storage class, and whether a row
/// must hold a value for it.
#[derive(Clone, Copy, Debug, PartialEq, Eq)]
pub struct Column {
    pub name: &'static str,
    pub affinity: Affinity,
    pub required: bool,
}

/// What a `Column` is.
pub struct ColumnView {
    pub name: Seq<char>,
    pub affinity: Affinity,
    pub required: bool,
}

impl View for Column {
    type V = ColumnView;

    open spec fn view(&self) -> ColumnView {
        ColumnView { name: self.name@, affinity: self.affinity, required: self.required }
    }
}

/// A column that points at the row of another table. The store is told of
/// it and does not hold rows to it.
#[derive(Clone, Copy, Debug, PartialEq, Eq)]
pub struct Reference {
    pub column: &'static str,
    pub table: &'static str,
}

/// What a `Reference` is.
pub struct ReferenceView {
    pub column: Seq<char>,
    pub table: Seq<char>,
}

impl View for Reference {
    type V = ReferenceView;

    open spec fn view(&self) -> ReferenceView {
        ReferenceView { column: self.column@, table: self.table@ }
    }
}

/// The views of the columns of a list, in the list's order.
pub open spec fn column_views(columns: Seq<Column>) -> Seq<ColumnView> {
    Seq::new(columns.len(), |i: int| columns[i]@)
}

/// What an optional reference is.
pub open spec fn reference_view(reference: Option<Reference>) -> Option<ReferenceView> {
    match reference {
        None => None,
        Some(r) => Some(r@),
    }
}

/// The name of a storage class.
pub open spec fn affinity_sql(affinity: Affinity) -> Seq<char> {
    match affinity {
        Affinity::Integer => "INTEGER"@,
        Affinity::Real => "REAL"@,
        Affinity::Text => "TEXT"@,
    }
}

/// The definition of one data column, after the comma that parts it from
/// the column before it.
pub open spec fn column_definition(column: ColumnView) -> Seq<char> {
    if column.required {
        ", "@ + column.name + " "@ + affinity_sql(column.affinity) + " NOT NULL"@
    } else {
        ", "@ + column.name + " "@ + affinity_sql(column.affinity)
    }
}

/// The definitions of all data columns, in the columns' order.
pub open spec fn column_definitions(columns: Seq<ColumnView>) -> Seq<char>
    decreases columns.len(),
{
    if columns.len() == 0 {
        Seq::empty()
    } else {
        column_definitions(columns.drop_last()) + column_definition(columns.last())
    }
}

/// The clause that declares a reference, or nothing.
pub open spec fn reference_clause(reference: Option<ReferenceView>) -> Seq<char> {
    match reference {
        None => Seq::empty(),
        Some(r) => ", FOREIGN KEY ("@ + r.column + ") REFERENCES "@ + r.table + "(id)"@,
    }
}

/// The text that creates `table` unless it is there already: an identifier
/// that the store assigns, then the data columns, then the reference.
pub open spec fn create_table_sql(
    table: Seq<char>,
    columns: Seq<ColumnView>,
    reference: Option<ReferenceView>,
) -> Seq<char> {
    "CREATE TABLE IF NOT EXISTS "@ + table + " (id INTEGER PRIMARY KEY AUTOINCREMENT"@
        + column_definitions(columns) + reference_clause(reference) + ")"@
}

/// The name of a storage class.
pub fn affinity_name(affinity: Affinity) -> (name: &'static str)
    ensures
        name@ == affinity_sql(affinity),
{
    match affinity {
        Affinity::Integer => "INTEGER",
        Affinity::Real => "REAL",
        Affinity::Text => "TEXT",
    }
}

/// The text that creates `table` unless it is there already. To run it on a
/// store that holds the table changes nothing.
pub fn create_table(table: &str, columns: &Vec<Column>, reference: Option<Reference>) -> (sql:
    String)
    ensures
        sql@ == create_table_sql(table@, column_views(columns@), reference_view(reference)),
{
    let mut definitions = String::new();
    let ghost views = column_views(columns@);
    let mut i: usize = 0;
    assert(definitions@ =~= column_definitions(views.take(0)));
    while i < columns.len()
        invariant
            i <= columns.len(),
            views == column_views(columns@),
            definitions@ == column_definitions(views.take(i as int)),
        decreases columns.len() - i,
    {
        let column = &columns[i];
        proof {
            assert(views.take(i + 1).drop_last() =~= views.take(i as int));
            assert(views.take(i + 1).last() == column@);
        }
        definitions.append(", ");
        definitions.append(column.name);
        definitions.append(" ");
        definitions.append(affinity_name(column.affinity));
        if column.required {
            definitions.append(" NOT NULL");
        }
        proof {
            assert(definitions@ =~= column_definitions(views.take(i + 1)));
        }
        i += 1;
    }
    assert(views.take(i as int) =~= views);
    let mut sql = String::from_str("CREATE TABLE IF NOT EXISTS ");
    sql.append(table);
    sql.append(" (id INTEGER PRIMARY KEY AUTOINCREMENT");
    sql.append(definitions.as_str());
    match reference {
        None => {},
        Some(r) => {
            sql.append(", FOREIGN KEY (");
            sql.append(r.column);
            sql.append(") REFERENCES ");
            sql.append(r.table);
            sql.append("(id)");
        },
    }
    sql.append(")");
    proof {
        assert(sql@ =~= create_table_sql(
            table@,
            column_views(columns@),
            reference_view(reference),
        ));
    }
    sql
}

} // verus!
