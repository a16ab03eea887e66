//! Every placeholder of a statement has its parameter.

use vstd::prelude::*;
use crate::query::{
    all_values, assignments, column_list, delete_sql, filter_condition, filter_conditions,
    filter_value, filter_values, insert_sql, placeholder_list, present_values, select_sql,
    update_sql,
};
use crate::value::FieldView;

verus! {

/// The number of placeholders in a text.
pub open spec fn placeholders(text: Seq<char>) -> nat
    decreases text.len(),
{
    if text.len() == 0 {
        0
    } else if text.last() == '?' {
        placeholders(text.drop_last()) + 1
    } else {
        placeholders(text.drop_last())
    }
}

/// Whether a text holds no placeholder.
pub open spec fn plain(text: Seq<char>) -> bool {
    forall|i: int| 0 <= i < text.len() ==> text[i] != '?'
}

/// Whether the name of no column holds a placeholder.
pub open spec fn plain_columns(fields: Seq<FieldView>) -> bool {
    forall|i: int| 0 <= i < fields.len() ==> plain((#[trigger] fields[i]).column)
}

/// The placeholders of two texts put together are those of both.
pub proof fn lemma_placeholders_add(a: Seq<char>, b: Seq<char>)
    ensures
        placeholders(a + b) == placeholders(a) + placeholders(b),
    decreases b.len(),
{
    if b.len() == 0 {
        assert(a + b =~= a);
    } else {
        lemma_placeholders_add(a, b.drop_last());
        assert((a + b).drop_last() =~= a + b.drop_last());
        assert((a + b).last() == b.last());
    }
}

/// A plain text has no placeholder.
pub proof fn lemma_plain_has_none(text: Seq<char>)
    requires
        plain(text),
    ensures
        placeholders(text) == 0,
    decreases text.len(),
{
    if text.len() > 0 {
        assert(plain(text.drop_last())) by {
            assert forall|i: int| 0 <= i < text.drop_last().len() implies text.drop_last()[i]
                != '?' by {
                assert(text.drop_last()[i] == text[i]);
            }
        }
        lemma_plain_has_none(text.drop_last());
    }
}

/// A plain text followed by one placeholder has one.
proof fn lemma_one_at_the_end(text: Seq<char>)
    requires
        text.len() > 0,
        text.last() == '?',
        plain(text.drop_last()),
    ensures
        placeholders(text) == 1,
{
    lemma_plain_has_none(text.drop_last());
}

/// What the fixed parts of a search hold.
proof fn lemma_select_words()
    ensures
        placeholders("SELECT * FROM "@) == 0,
        placeholders(" WHERE 1=1"@) == 0,
        placeholders(" AND "@) == 0,
        placeholders(" LIKE ?"@) == 1,
        placeholders(" = ?"@) == 1,
{
    reveal_strlit("SELECT * FROM ");
    reveal_strlit(" WHERE 1=1");
    reveal_strlit(" AND ");
    reveal_strlit(" LIKE ?");
    reveal_strlit(" = ?");
    lemma_plain_has_none("SELECT * FROM "@);
    lemma_plain_has_none(" WHERE 1=1"@);
    lemma_plain_has_none(" AND "@);
    lemma_one_at_the_end(" LIKE ?"@);
    lemma_one_at_the_end(" = ?"@);
}

/// A field adds one placeholder to a search where it adds a parameter, and
/// none where it adds none.
proof fn lemma_condition_matches_value(field: FieldView)
    requires
        plain(field.column),
    ensures
        placeholders(filter_condition(field)) == if filter_value(field) is Some {
            1nat
        } else {
            0nat
        },
{
    lemma_select_words();
    lemma_plain_has_none(field.column);
    if filter_value(field) is Some {
        lemma_placeholders_add(" AND "@, field.column);
        lemma_placeholders_add(" AND "@ + field.column, " LIKE ?"@);
        lemma_placeholders_add(" AND "@ + field.column, " = ?"@);
    }
}

/// The conditions of a search hold one placeholder for each parameter.
proof fn lemma_conditions_match_values(fields: Seq<FieldView>)
    requires
        plain_columns(fields),
    ensures
        placeholders(filter_conditions(fields)) == filter_values(fields).len(),
    decreases fields.len(),
{
    if fields.len() > 0 {
        assert(plain_columns(fields.drop_last())) by {
            assert forall|i: int| 0 <= i < fields.drop_last().len() implies plain(
                (#[trigger] fields.drop_last()[i]).column,
            ) by {
                assert(fields.drop_last()[i] == fields[i]);
            }
        }
        lemma_conditions_match_values(fields.drop_last());
        lemma_condition_matches_value(fields.last());
        lemma_placeholders_add(
            filter_conditions(fields.drop_last()),
            filter_condition(fields.last()),
        );
    }
}

/// A search has as many placeholders as parameters, where the names of the
/// table and of the columns hold none.
pub proof fn lemma_select_placeholders(table: Seq<char>, fields: Seq<FieldView>)
    requires
        plain(table),
        plain_columns(fields),
    ensures
        placeholders(select_sql(table, fields)) == filter_values(fields).len(),
{
    lemma_select_words();
    lemma_plain_has_none(table);
    lemma_conditions_match_values(fields);
    lemma_placeholders_add("SELECT * FROM "@, table);
    lemma_placeholders_add("SELECT * FROM "@ + table, " WHERE 1=1"@);
    lemma_placeholders_add(
        "SELECT * FROM "@ + table + " WHERE 1=1"@,
        filter_conditions(fields),
    );
}

/// What the fixed parts of an update hold.
proof fn lemma_update_words()
    ensures
        placeholders("UPDATE "@) == 0,
        placeholders(" SET "@) == 0,
        placeholders(", "@) == 0,
        placeholders(" = ?"@) == 1,
        placeholders(" WHERE id = ?"@) == 1,
{
    reveal_strlit("UPDATE ");
    reveal_strlit(" SET ");
    reveal_strlit(", ");
    reveal_strlit(" = ?");
    reveal_strlit(" WHERE id = ?");
    lemma_plain_has_none("UPDATE "@);
    lemma_plain_has_none(" SET "@);
    lemma_plain_has_none(", "@);
    lemma_one_at_the_end(" = ?"@);
    lemma_one_at_the_end(" WHERE id = ?"@);
}

/// The assignments of an update hold one placeholder for each value.
proof fn lemma_assignments_match_values(fields: Seq<FieldView>)
    requires
        plain_columns(fields),
    ensures
        placeholders(assignments(fields)) == present_values(fields).len(),
    decreases fields.len(),
{
    if fields.len() > 0 {
        let rest = fields.drop_last();
        let column = fields.last().column;
        assert(plain_columns(rest)) by {
            assert forall|i: int| 0 <= i < rest.len() implies plain(
                (#[trigger] rest[i]).column,
            ) by {
                assert(rest[i] == fields[i]);
            }
        }
        lemma_assignments_match_values(rest);
        lemma_update_words();
        lemma_plain_has_none(column);
        if fields.last().value is Some {
            if present_values(rest).len() == 0 {
                lemma_placeholders_add(column, " = ?"@);
            } else {
                lemma_placeholders_add(assignments(rest), ", "@);
                lemma_placeholders_add(assignments(rest) + ", "@, column);
                lemma_placeholders_add(assignments(rest) + ", "@ + column, " = ?"@);
            }
        }
    }
}

/// An update has one placeholder for each value that it assigns and one for
/// the row's identifier, where the names of the table and of the columns
/// hold none.
pub proof fn lemma_update_placeholders(table: Seq<char>, fields: Seq<FieldView>)
    requires
        plain(table),
        plain_columns(fields),
    ensures
        placeholders(update_sql(table, fields)) == present_values(fields).len() + 1,
{
    lemma_update_words();
    lemma_plain_has_none(table);
    lemma_assignments_match_values(fields);
    lemma_placeholders_add("UPDATE "@, table);
    lemma_placeholders_add("UPDATE "@ + table, " SET "@);
    lemma_placeholders_add("UPDATE "@ + table + " SET "@, assignments(fields));
    lemma_placeholders_add(
        "UPDATE "@ + table + " SET "@ + assignments(fields),
        " WHERE id = ?"@,
    );
}

/// What the fixed parts of an insertion hold.
proof fn lemma_insert_words()
    ensures
        placeholders("INSERT INTO "@) == 0,
        placeholders(" ("@) == 0,
        placeholders(", "@) == 0,
        placeholders(") VALUES ("@) == 0,
        placeholders(")"@) == 0,
        placeholders("?"@) == 1,
        placeholders(", ?"@) == 1,
{
    reveal_strlit("INSERT INTO ");
    reveal_strlit(" (");
    reveal_strlit(", ");
    reveal_strlit(") VALUES (");
    reveal_strlit(")");
    reveal_strlit("?");
    reveal_strlit(", ?");
    lemma_plain_has_none("INSERT INTO "@);
    lemma_plain_has_none(" ("@);
    lemma_plain_has_none(", "@);
    lemma_plain_has_none(") VALUES ("@);
    lemma_plain_has_none(")"@);
    lemma_one_at_the_end("?"@);
    lemma_one_at_the_end(", ?"@);
}

/// A list of column names holds no placeholder.
proof fn lemma_column_list_is_plain(fields: Seq<FieldView>)
    requires
        plain_columns(fields),
    ensures
        placeholders(column_list(fields)) == 0,
    decreases fields.len(),
{
    if fields.len() > 0 {
        let rest = fields.drop_last();
        assert(plain_columns(rest)) by {
            assert forall|i: int| 0 <= i < rest.len() implies plain(
                (#[trigger] rest[i]).column,
            ) by {
                assert(rest[i] == fields[i]);
            }
        }
        lemma_insert_words();
        lemma_plain_has_none(fields.last().column);
        if fields.len() > 1 {
            lemma_column_list_is_plain(rest);
            lemma_placeholders_add(column_list(rest), ", "@);
            lemma_placeholders_add(column_list(rest) + ", "@, fields.last().column);
        }
    }
}

/// A list of `count` placeholders holds `count` of them.
proof fn lemma_placeholder_list_counts(count: nat)
    ensures
        placeholders(placeholder_list(count)) == count,
    decreases count,
{
    lemma_insert_words();
    if count > 1 {
        lemma_placeholder_list_counts((count - 1) as nat);
        lemma_placeholders_add(placeholder_list((count - 1) as nat), ", ?"@);
    }
}

/// An insertion has as many placeholders as parameters, one for each column,
/// where the names of the table and of the columns hold none.
pub proof fn lemma_insert_placeholders(table: Seq<char>, fields: Seq<FieldView>)
    requires
        plain(table),
        plain_columns(fields),
    ensures
        placeholders(insert_sql(table, fields)) == all_values(fields).len(),
        all_values(fields).len() == fields.len(),
{
    lemma_insert_words();
    lemma_plain_has_none(table);
    lemma_column_list_is_plain(fields);
    lemma_placeholder_list_counts(fields.len());
    let a = "INSERT INTO "@ + table;
    let b = a + " ("@;
    let c = b + column_list(fields);
    let d = c + ") VALUES ("@;
    let e = d + placeholder_list(fields.len());
    lemma_placeholders_add("INSERT INTO "@, table);
    lemma_placeholders_add(a, " ("@);
    lemma_placeholders_add(b, column_list(fields));
    lemma_placeholders_add(c, ") VALUES ("@);
    lemma_placeholders_add(d, placeholder_list(fields.len()));
    lemma_placeholders_add(e, ")"@);
}

/// A removal has one placeholder, for the row's identifier, where the name
/// of the table holds none.
pub proof fn lemma_delete_placeholders(table: Seq<char>)
    requires
        plain(table),
    ensures
        placeholders(delete_sql(table)) == 1,
{
    reveal_strlit("DELETE FROM ");
    reveal_strlit(" WHERE id = ?");
    lemma_plain_has_none("DELETE FROM "@);
    lemma_one_at_the_end(" WHERE id = ?"@);
    lemma_plain_has_none(table);
    lemma_placeholders_add("DELETE FROM "@, table);
    lemma_placeholders_add("DELETE FROM "@ + table, " WHERE id = ?"@);
}

} // verus!
