//! Parameterised statements built from the fields of an entity.
//!
//! A statement is a text with `?` placeholders and the values that take their
//! places, in order. No value is ever written into the text.

use vstd::prelude::*;
use crate::value::{Field, FieldView, Kind, Value, ValueView, field_views, value_views};

verus! {

/// A statement ready to be run: its text and its positional parameters.
/// A parameter that is `None` binds a null.
#[derive(Debug, PartialEq)]
pub struct Statement {
    pub sql: String,
    pub params: Vec<Option<Value>>,
}

/// What a `Statement` is.
pub struct StatementView {
    pub sql: Seq<char>,
    pub params: Seq<Option<ValueView>>,
}

impl View for Statement {
    type V = StatementView;

    open spec fn view(&self) -> StatementView {
        StatementView { sql: self.sql@, params: value_views(self.params@) }
    }
}

/// The pattern that matches every text that contains `text`.
pub open spec fn like_pattern(text: Seq<char>) -> Seq<char> {
    "%"@ + text + "%"@
}

/// Whether a search compares the field by containment.
pub open spec fn searches_by_containment(field: FieldView) -> bool {
    field.kind == Kind::Substring && field.value is Some && field.value.unwrap() is Text
}

/// The parameter that a field adds to a search, if it constrains the search
/// at all: a field without a value does not, nor does an empty text that
/// would be searched for by containment.
pub open spec fn filter_value(field: FieldView) -> Option<ValueView> {
    match field.value {
        None => None,
        Some(value) => if searches_by_containment(field) {
            if value->Text_0.len() == 0 {
                None
            } else {
                Some(ValueView::Text(like_pattern(value->Text_0)))
            }
        } else {
            Some(value)
        },
    }
}

/// The condition that a field adds to a search: nothing where it does not
/// constrain the search.
pub open spec fn filter_condition(field: FieldView) -> Seq<char> {
    if filter_value(field) is None {
        Seq::empty()
    } else if searches_by_containment(field) {
        " AND "@ + field.column + " LIKE ?"@
    } else {
        " AND "@ + field.column + " = ?"@
    }
}

/// The conditions of all fields, in the fields' order.
pub open spec fn filter_conditions(fields: Seq<FieldView>) -> Seq<char>
    decreases fields.len(),
{
    if fields.len() == 0 {
        Seq::empty()
    } else {
        filter_conditions(fields.drop_last()) + filter_condition(fields.last())
    }
}

/// The parameters of all fields that constrain a search, in the fields' order.
pub open spec fn filter_values(fields: Seq<FieldView>) -> Seq<Option<ValueView>>
    decreases fields.len(),
{
    if fields.len() == 0 {
        Seq::empty()
    } else {
        match filter_value(fields.last()) {
            None => filter_values(fields.drop_last()),
            Some(value) => filter_values(fields.drop_last()).push(Some(value)),
        }
    }
}

/// The text of a search in `table`: a condition that holds of every row,
/// narrowed by the condition of each field.
pub open spec fn select_sql(table: Seq<char>, fields: Seq<FieldView>) -> Seq<char> {
    "SELECT * FROM "@ + table + " WHERE 1=1"@ + filter_conditions(fields)
}

/// The search for the rows of `table` that agree with every field that has a
/// value.
pub fn select_statement(table: &str, fields: &Vec<Field>) -> (statement: Statement)
    ensures
        statement@.sql == select_sql(table@, field_views(fields@)),
        statement@.params == filter_values(field_views(fields@)),
{
    let mut sql = String::from_str("SELECT * FROM ");
    sql.append(table);
    sql.append(" WHERE 1=1");
    let mut params: Vec<Option<Value>> = Vec::new();
    let ghost views = field_views(fields@);
    let mut i: usize = 0;
    assert(sql@ =~= select_sql(table@, views.take(0)));
    assert(value_views(params@) =~= filter_values(views.take(0)));
    while i < fields.len()
        invariant
            i <= fields.len(),
            views == field_views(fields@),
            sql@ == select_sql(table@, views.take(i as int)),
            value_views(params@) == filter_values(views.take(i as int)),
        decreases fields.len() - i,
    {
        let field = &fields[i];
        let ghost before = params@;
        proof {
            assert(views.take(i + 1).drop_last() =~= views.take(i as int));
            assert(views.take(i + 1).last() == field@);
        }
        match &field.value {
            None => {},
            Some(Value::Text(text)) => {
                match field.kind {
                    Kind::Substring => {
                        if !text.as_str().is_empty() {
                            let mut pattern = String::from_str("%");
                            pattern.append(text.as_str());
                            pattern.append("%");
                            sql.append(" AND ");
                            sql.append(field.column);
                            sql.append(" LIKE ?");
                            params.push(Some(Value::Text(pattern)));
                        }
                    },
                    Kind::Exact => {
                        sql.append(" AND ");
                        sql.append(field.column);
                        sql.append(" = ?");
                        params.push(Some(Value::Text(text.clone())));
                    },
                }
            },
            Some(value) => {
                sql.append(" AND ");
                sql.append(field.column);
                sql.append(" = ?");
                params.push(Some(value.clone()));
            },
        }
        proof {
            assert(sql@ =~= select_sql(table@, views.take(i + 1)));
            assert(value_views(params@) =~= filter_values(views.take(i + 1)));
        }
        i += 1;
    }
    assert(views.take(i as int) =~= views);
    Statement { sql, params }
}

/// The values of the fields that have one, in the fields' order.
pub open spec fn present_values(fields: Seq<FieldView>) -> Seq<Option<ValueView>>
    decreases fields.len(),
{
    if fields.len() == 0 {
        Seq::empty()
    } else {
        match fields.last().value {
            None => present_values(fields.drop_last()),
            Some(value) => present_values(fields.drop_last()).push(Some(value)),
        }
    }
}

/// The assignments of an update, separated by commas: one `column = ?` for
/// each field that has a value, in the fields' order.
pub open spec fn assignments(fields: Seq<FieldView>) -> Seq<char>
    decreases fields.len(),
{
    if fields.len() == 0 {
        Seq::empty()
    } else if fields.last().value is None {
        assignments(fields.drop_last())
    } else if present_values(fields.drop_last()).len() == 0 {
        fields.last().column + " = ?"@
    } else {
        assignments(fields.drop_last()) + ", "@ + fields.last().column + " = ?"@
    }
}

/// The text of an update of one row of `table`.
pub open spec fn update_sql(table: Seq<char>, fields: Seq<FieldView>) -> Seq<char> {
    "UPDATE "@ + table + " SET "@ + assignments(fields) + " WHERE id = ?"@
}

/// What an update of the row `id` of `table` is: nothing to run where no row
/// is named or no field has a value; else the assignments of the fields that
/// have a value, with the row's identifier as the last parameter.
pub open spec fn update_of(table: Seq<char>, id: Option<u32>, fields: Seq<FieldView>) -> Option<
    StatementView,
> {
    if id is Some && present_values(fields).len() > 0 {
        Some(
            StatementView {
                sql: update_sql(table, fields),
                params: present_values(fields).push(Some(ValueView::Integer(id.unwrap() as int))),
            },
        )
    } else {
        None
    }
}

/// The update that gives the row `id` of `table` the value of each field that
/// has one and leaves its other columns alone. There is nothing to run, and
/// so no row changes, where `id` is absent or no field has a value.
pub fn update_statement(table: &str, id: Option<u32>, fields: &Vec<Field>) -> (statement: Option<
    Statement,
>)
    ensures
        match statement {
            Some(s) => update_of(table@, id, field_views(fields@)) == Some(s@),
            None => update_of(table@, id, field_views(fields@)) is None,
        },
{
    let row = match id {
        Some(row) => row,
        None => {
            return None;
        },
    };
    let mut set = String::new();
    let mut params: Vec<Option<Value>> = Vec::new();
    let ghost views = field_views(fields@);
    let mut i: usize = 0;
    assert(set@ =~= assignments(views.take(0)));
    assert(value_views(params@) =~= present_values(views.take(0)));
    while i < fields.len()
        invariant
            i <= fields.len(),
            views == field_views(fields@),
            set@ == assignments(views.take(i as int)),
            value_views(params@) == present_values(views.take(i as int)),
            params@.len() == 0 ==> set@.len() == 0,
        decreases fields.len() - i,
    {
        let field = &fields[i];
        proof {
            assert(views.take(i + 1).drop_last() =~= views.take(i as int));
            assert(views.take(i + 1).last() == field@);
        }
        assert(params@.len() == value_views(params@).len());
        assert(set@.len() == 0 ==> set@ =~= Seq::<char>::empty());
        match &field.value {
            None => {},
            Some(value) => {
                if params.len() > 0 {
                    set.append(", ");
                }
                set.append(field.column);
                set.append(" = ?");
                params.push(Some(value.clone()));
            },
        }
        proof {
            assert(set@ =~= assignments(views.take(i + 1)));
            assert(value_views(params@) =~= present_values(views.take(i + 1)));
        }
        i += 1;
    }
    assert(views.take(i as int) =~= views);
    if params.len() == 0 {
        return None;
    }
    let mut sql = String::from_str("UPDATE ");
    sql.append(table);
    sql.append(" SET ");
    sql.append(set.as_str());
    sql.append(" WHERE id = ?");
    params.push(Some(Value::Integer(row as i64)));
    let statement = Statement { sql, params };
    proof {
        assert(statement@.sql =~= update_sql(table@, views));
        assert(statement@.params =~= present_values(views).push(
            Some(ValueView::Integer(row as int)),
        ));
    }
    Some(statement)
}

/// The names of the columns, separated by commas.
pub open spec fn column_list(fields: Seq<FieldView>) -> Seq<char>
    decreases fields.len(),
{
    if fields.len() == 0 {
        Seq::empty()
    } else if fields.len() == 1 {
        fields.last().column
    } else {
        column_list(fields.drop_last()) + ", "@ + fields.last().column
    }
}

/// `count` placeholders, separated by commas.
pub open spec fn placeholder_list(count: nat) -> Seq<char>
    decreases count,
{
    if count == 0 {
        Seq::empty()
    } else if count == 1 {
        "?"@
    } else {
        placeholder_list((count - 1) as nat) + ", ?"@
    }
}

/// The value of every field, in the fields' order: `None` where it has none.
pub open spec fn all_values(fields: Seq<FieldView>) -> Seq<Option<ValueView>> {
    Seq::new(fields.len(), |i: int| fields[i].value)
}

/// The text of the insertion of one row into `table`.
pub open spec fn insert_sql(table: Seq<char>, fields: Seq<FieldView>) -> Seq<char> {
    "INSERT INTO "@ + table + " ("@ + column_list(fields) + ") VALUES ("@ + placeholder_list(
        fields.len(),
    ) + ")"@
}

/// What the insertion of one row into `table` is.
pub open spec fn insert_of(table: Seq<char>, fields: Seq<FieldView>) -> StatementView {
    StatementView { sql: insert_sql(table, fields), params: all_values(fields) }
}

/// The insertion of a row into `table` that holds the value of each field,
/// and a null where a field has none.
pub fn insert_statement(table: &str, fields: &Vec<Field>) -> (statement: Statement)
    ensures
        statement@.sql == insert_sql(table@, field_views(fields@)),
        statement@.params == all_values(field_views(fields@)),
{
    let mut columns = String::new();
    let mut marks = String::new();
    let mut params: Vec<Option<Value>> = Vec::new();
    let ghost views = field_views(fields@);
    let mut i: usize = 0;
    assert(columns@ =~= column_list(views.take(0)));
    assert(marks@ =~= placeholder_list(0));
    assert(value_views(params@) =~= all_values(views.take(0)));
    while i < fields.len()
        invariant
            i <= fields.len(),
            views == field_views(fields@),
            columns@ == column_list(views.take(i as int)),
            marks@ == placeholder_list(i as nat),
            params@.len() == i,
            value_views(params@) == all_values(views.take(i as int)),
        decreases fields.len() - i,
    {
        let field = &fields[i];
        proof {
            assert(views.take(i + 1).drop_last() =~= views.take(i as int));
            assert(views.take(i + 1).last() == field@);
        }
        let ghost before = params@;
        if i > 0 {
            columns.append(", ");
            marks.append(", ?");
        } else {
            marks.append("?");
        }
        columns.append(field.column);
        match &field.value {
            None => {
                params.push(None);
            },
            Some(value) => {
                params.push(Some(value.clone()));
            },
        }
        proof {
            assert(columns@ =~= column_list(views.take(i + 1)));
            assert(marks@ =~= placeholder_list((i + 1) as nat));
            assert forall|j: int| 0 <= j < i implies value_views(params@)[j] == all_values(
                views.take(i + 1),
            )[j] by {
                assert(value_views(before)[j] == all_values(views.take(i as int))[j]);
            }
            assert(value_views(params@) =~= all_values(views.take(i + 1)));
        }
        i += 1;
    }
    assert(views.take(i as int) =~= views);
    let mut sql = String::from_str("INSERT INTO ");
    sql.append(table);
    sql.append(" (");
    sql.append(columns.as_str());
    sql.append(") VALUES (");
    sql.append(marks.as_str());
    sql.append(")");
    let statement = Statement { sql, params };
    proof {
        assert(statement@.sql =~= insert_sql(table@, views));
    }
    statement
}

/// The text of the removal of one row of `table`.
pub open spec fn delete_sql(table: Seq<char>) -> Seq<char> {
    "DELETE FROM "@ + table + " WHERE id = ?"@
}

/// The removal of the row `id` of `table`.
pub fn delete_statement(table: &str, id: u32) -> (statement: Statement)
    ensures
        statement@.sql == delete_sql(table@),
        statement@.params == seq![Some(ValueView::Integer(id as int))],
{
    let mut sql = String::from_str("DELETE FROM ");
    sql.append(table);
    sql.append(" WHERE id = ?");
    let mut params: Vec<Option<Value>> = Vec::new();
    params.push(Some(Value::Integer(id as i64)));
    let statement = Statement { sql, params };
    proof {
        assert(statement@.sql =~= delete_sql(table@));
        assert(statement@.params =~= seq![Some(ValueView::Integer(id as int))]);
    }
    statement
}

} // verus!
