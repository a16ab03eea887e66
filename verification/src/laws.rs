//! What holds of every statement that the builders make.

use vstd::prelude::*;
use crate::query::{
    assignments, filter_condition, filter_conditions, filter_value, filter_values,
    present_values, select_sql, update_of,
};
use crate::value::{FieldView, Kind, ValueView};

verus! {

/// A field with its value taken away.
pub open spec fn unset(field: FieldView) -> FieldView {
    FieldView { column: field.column, kind: field.kind, value: None }
}

/// Whether no field of the list has a value.
pub open spec fn all_unset(fields: Seq<FieldView>) -> bool {
    forall|i: int| 0 <= i < fields.len() ==> (#[trigger] fields[i]).value is None
}

/// Fields without a value add no condition and no parameter to a search.
pub proof fn lemma_unset_fields_add_nothing(fields: Seq<FieldView>)
    requires
        all_unset(fields),
    ensures
        filter_conditions(fields) == Seq::<char>::empty(),
        filter_values(fields) == Seq::<Option<ValueView>>::empty(),
    decreases fields.len(),
{
    if fields.len() > 0 {
        lemma_unset_fields_add_nothing(fields.drop_last());
        assert(fields.last().value is None);
        assert(filter_conditions(fields) =~= Seq::<char>::empty());
    }
}

/// A search with no field set asks for every row: its text is the condition
/// that holds of every row, and it has no parameter.
pub proof fn lemma_unset_filter_selects_every_row(table: Seq<char>, fields: Seq<FieldView>)
    requires
        all_unset(fields),
    ensures
        select_sql(table, fields) == "SELECT * FROM "@ + table + " WHERE 1=1"@,
        filter_values(fields) == Seq::<Option<ValueView>>::empty(),
{
    lemma_unset_fields_add_nothing(fields);
    assert(select_sql(table, fields) =~= "SELECT * FROM "@ + table + " WHERE 1=1"@);
}

/// A field that does not constrain a search can be left out of it.
pub proof fn lemma_free_field_can_be_left_out(
    before: Seq<FieldView>,
    field: FieldView,
    after: Seq<FieldView>,
)
    requires
        filter_value(field) is None,
    ensures
        filter_conditions(before + seq![field] + after) == filter_conditions(before + after),
        filter_values(before + seq![field] + after) == filter_values(before + after),
    decreases after.len(),
{
    let with = before + seq![field] + after;
    let without = before + after;
    if after.len() == 0 {
        assert(with.drop_last() =~= before);
        assert(without =~= before);
        assert(with.last() == field);
        assert(filter_conditions(with) =~= filter_conditions(before));
    } else {
        lemma_free_field_can_be_left_out(before, field, after.drop_last());
        assert(with.drop_last() =~= before + seq![field] + after.drop_last());
        assert(without.drop_last() =~= before + after.drop_last());
        assert(with.last() == after.last());
        assert(without.last() == after.last());
    }
}

/// To search a text column by containment for the empty text is the same as
/// not to constrain that column: the statement is the one made with the
/// field unset.
pub proof fn lemma_empty_text_does_not_narrow(table: Seq<char>, fields: Seq<FieldView>, i: int)
    requires
        0 <= i < fields.len(),
        fields[i].kind == Kind::Substring,
        fields[i].value == Some(ValueView::Text(Seq::<char>::empty())),
    ensures
        select_sql(table, fields) == select_sql(table, fields.update(i, unset(fields[i]))),
        filter_values(fields) == filter_values(fields.update(i, unset(fields[i]))),
{
    let before = fields.take(i);
    let after = fields.skip(i + 1);
    assert(fields =~= before + seq![fields[i]] + after);
    assert(fields.update(i, unset(fields[i])) =~= before + seq![unset(fields[i])] + after);
    lemma_free_field_can_be_left_out(before, fields[i], after);
    lemma_free_field_can_be_left_out(before, unset(fields[i]), after);
}

/// Where one field alone has a value, a search has that field's condition
/// and parameter and no other: `column = ?` with the value itself for an
/// exact match, `column LIKE ?` with the text between two `%` for a text that
/// is searched by containment and is not empty.
pub proof fn lemma_single_field_narrows_alone(table: Seq<char>, fields: Seq<FieldView>, i: int)
    requires
        0 <= i < fields.len(),
        forall|j: int| 0 <= j < fields.len() && j != i ==> (#[trigger] fields[j]).value is None,
    ensures
        select_sql(table, fields) == "SELECT * FROM "@ + table + " WHERE 1=1"@ + filter_condition(
            fields[i],
        ),
        filter_values(fields) == match filter_value(fields[i]) {
            None => Seq::<Option<ValueView>>::empty(),
            Some(value) => seq![Some(value)],
        },
{
    let before = fields.take(i);
    let after = fields.skip(i + 1);
    let only = before + seq![fields[i]];
    assert(fields =~= only + after);
    lemma_rest_unset(only, after);
    assert(only.drop_last() =~= before);
    assert(only.last() == fields[i]);
    lemma_unset_fields_add_nothing(before);
    assert(filter_conditions(only) =~= filter_condition(fields[i]));
    assert(filter_values(only) =~= match filter_value(fields[i]) {
        None => Seq::<Option<ValueView>>::empty(),
        Some(value) => seq![Some(value)],
    });
}

/// Fields without a value at the end of a list add nothing to a search.
proof fn lemma_rest_unset(fields: Seq<FieldView>, rest: Seq<FieldView>)
    requires
        all_unset(rest),
    ensures
        filter_conditions(fields + rest) == filter_conditions(fields),
        filter_values(fields + rest) == filter_values(fields),
    decreases rest.len(),
{
    if rest.len() == 0 {
        assert(fields + rest =~= fields);
    } else {
        lemma_rest_unset(fields, rest.drop_last());
        assert((fields + rest).drop_last() =~= fields + rest.drop_last());
        assert((fields + rest).last() == rest.last());
        assert(rest.last().value is None);
        assert(filter_conditions(fields + rest) =~= filter_conditions(fields));
    }
}

/// An update that names no row runs nothing, whatever fields are set.
pub proof fn lemma_update_without_id_runs_nothing(table: Seq<char>, fields: Seq<FieldView>)
    ensures
        update_of(table, None, fields) is None,
{
}

/// Fields without a value assign nothing.
pub proof fn lemma_unset_fields_assign_nothing(fields: Seq<FieldView>)
    requires
        all_unset(fields),
    ensures
        present_values(fields) == Seq::<Option<ValueView>>::empty(),
        assignments(fields) == Seq::<char>::empty(),
    decreases fields.len(),
{
    if fields.len() > 0 {
        lemma_unset_fields_assign_nothing(fields.drop_last());
        assert(fields.last().value is None);
    }
}

/// An update with no field set runs nothing, whatever row it names.
pub proof fn lemma_update_without_values_runs_nothing(
    table: Seq<char>,
    id: Option<u32>,
    fields: Seq<FieldView>,
)
    requires
        all_unset(fields),
    ensures
        update_of(table, id, fields) is None,
{
    lemma_unset_fields_assign_nothing(fields);
}

/// A field without a value takes no part in an update: the statement is the
/// one made from the other fields alone, so the column keeps what is stored.
pub proof fn lemma_unset_field_is_not_assigned(
    before: Seq<FieldView>,
    field: FieldView,
    after: Seq<FieldView>,
)
    requires
        field.value is None,
    ensures
        assignments(before + seq![field] + after) == assignments(before + after),
        present_values(before + seq![field] + after) == present_values(before + after),
    decreases after.len(),
{
    let with = before + seq![field] + after;
    let without = before + after;
    if after.len() == 0 {
        assert(with.drop_last() =~= before);
        assert(without =~= before);
        assert(with.last() == field);
    } else {
        lemma_unset_field_is_not_assigned(before, field, after.drop_last());
        assert(with.drop_last() =~= before + seq![field] + after.drop_last());
        assert(without.drop_last() =~= before + after.drop_last());
        assert(with.last() == after.last());
        assert(without.last() == after.last());
    }
}

/// An update changes the columns of the fields that are set and no others:
/// it is the update made from the list without any one unset field.
pub proof fn lemma_update_leaves_unset_columns(
    table: Seq<char>,
    id: Option<u32>,
    fields: Seq<FieldView>,
    i: int,
)
    requires
        0 <= i < fields.len(),
        fields[i].value is None,
    ensures
        update_of(table, id, fields) == update_of(table, id, fields.remove(i)),
{
    let before = fields.take(i);
    let after = fields.skip(i + 1);
    assert(fields =~= before + seq![fields[i]] + after);
    assert(fields.remove(i) =~= before + after);
    lemma_unset_field_is_not_assigned(before, fields[i], after);
}

/// An update binds one parameter for each field that is set, in the fields'
/// order, and the row's identifier after them.
pub proof fn lemma_update_binds_id_last(table: Seq<char>, id: u32, fields: Seq<FieldView>)
    requires
        present_values(fields).len() > 0,
    ensures
        update_of(table, Some(id), fields) is Some,
        update_of(table, Some(id), fields).unwrap().params.len() == present_values(fields).len()
            + 1,
        update_of(table, Some(id), fields).unwrap().params.last() == Some(
            ValueView::Integer(id as int),
        ),
        update_of(table, Some(id), fields).unwrap().params.drop_last() == present_values(fields),
{
    let params = update_of(table, Some(id), fields).unwrap().params;
    assert(params.drop_last() =~= present_values(fields));
}

/// Where one field alone has a value, an update assigns that column alone.
pub proof fn lemma_single_field_is_assigned_alone(fields: Seq<FieldView>, i: int)
    requires
        0 <= i < fields.len(),
        fields[i].value is Some,
        forall|j: int| 0 <= j < fields.len() && j != i ==> (#[trigger] fields[j]).value is None,
    ensures
        assignments(fields) == fields[i].column + " = ?"@,
        present_values(fields) == seq![fields[i].value],
    decreases fields.len() - i,
{
    if i == fields.len() - 1 {
        lemma_unset_fields_assign_nothing(fields.drop_last());
        assert(present_values(fields) =~= seq![fields[i].value]);
    } else {
        let last = fields.len() - 1;
        assert(fields[last].value is None);
        assert(fields =~= fields.drop_last() + seq![fields[last]] + Seq::<FieldView>::empty());
        lemma_unset_field_is_not_assigned(
            fields.drop_last(),
            fields[last],
            Seq::<FieldView>::empty(),
        );
        assert(fields.drop_last() + Seq::<FieldView>::empty() =~= fields.drop_last());
        assert(fields.drop_last()[i] == fields[i]);
        lemma_single_field_is_assigned_alone(fields.drop_last(), i);
    }
}

/// A text to search for, or nothing where the text is empty.
pub open spec fn searched(text: Option<Seq<char>>) -> Option<Seq<char>> {
    if text is Some && text.unwrap().len() == 0 {
        None
    } else {
        text
    }
}

} // verus!
