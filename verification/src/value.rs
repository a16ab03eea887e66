//! The values that a column can hold, and a column together with its value.

use vstd::prelude::*;
use crate::date::{Date, DateView};

verus! {

/// A decimal number, kept as the bit pattern of an IEEE 754 double.
#[derive(Clone, Copy, Debug, PartialEq, Eq, Structural)]
pub struct Decimal {
    pub bits: u64,
}

/// A value of one column.
#[derive(Debug, PartialEq)]
pub enum Value {
    /// An identifier, a count or a code.
    Integer(i64),
    /// A two-valued flag.
    Flag(bool),
    /// A decimal number.
    Real(Decimal),
    /// A text.
    Text(String),
    /// A day.
    Date(Date),
}

/// What a `Value` is, with a text as a sequence of characters.
pub enum ValueView {
    Integer(int),
    Flag(bool),
    Real(u64),
    Text(Seq<char>),
    Date(DateView),
}

impl View for Value {
    type V = ValueView;

    open spec fn view(&self) -> ValueView {
        match *self {
            Value::Integer(v) => ValueView::Integer(v as int),
            Value::Flag(v) => ValueView::Flag(v),
            Value::Real(v) => ValueView::Real(v.bits),
            Value::Text(v) => ValueView::Text(v@),
            Value::Date(v) => ValueView::Date(v@),
        }
    }
}

impl Clone for Value {
    fn clone(&self) -> (copy: Value)
        ensures
            copy@ == self@,
    {
        match self {
            Value::Integer(v) => Value::Integer(*v),
            Value::Flag(v) => Value::Flag(*v),
            Value::Real(v) => Value::Real(*v),
            Value::Text(v) => Value::Text(v.clone()),
            Value::Date(v) => Value::Date(*v),
        }
    }
}

/// What an optional value is: nothing, or the view of the value.
pub open spec fn optional_view(value: Option<Value>) -> Option<ValueView> {
    match value {
        None => None,
        Some(v) => Some(v@),
    }
}

/// How a column takes part in a search.
#[derive(Clone, Copy, Debug, PartialEq, Eq, Structural)]
pub enum Kind {
    /// The stored value must equal the one given.
    Exact,
    /// The stored text must contain the one given.
    Substring,
}

/// A column of a table with the value that an entity holds for it, if any.
#[derive(Debug, PartialEq)]
pub struct Field {
    pub column: &'static str,
    pub kind: Kind,
    pub value: Option<Value>,
}

/// What a `Field` is.
pub struct FieldView {
    pub column: Seq<char>,
    pub kind: Kind,
    pub value: Option<ValueView>,
}

impl View for Field {
    type V = FieldView;

    open spec fn view(&self) -> FieldView {
        FieldView { column: self.column@, kind: self.kind, value: optional_view(self.value) }
    }
}

/// The views of the fields of a list, in the list's order.
pub open spec fn field_views(fields: Seq<Field>) -> Seq<FieldView> {
    Seq::new(fields.len(), |i: int| fields[i]@)
}

/// The views of the values of a list, in the list's order.
pub open spec fn value_views(values: Seq<Option<Value>>) -> Seq<Option<ValueView>> {
    Seq::new(values.len(), |i: int| optional_view(values[i]))
}

/// What an optional text is: nothing, or its characters.
pub open spec fn text_view(text: Option<String>) -> Option<Seq<char>> {
    match text {
        None => None,
        Some(t) => Some(t@),
    }
}

/// What an optional day is: nothing, or its year, month and day.
pub open spec fn date_view(date: Option<Date>) -> Option<DateView> {
    match date {
        None => None,
        Some(d) => Some(d@),
    }
}

/// A copy of an optional text.
pub fn copy_text(text: &Option<String>) -> (copy: Option<String>)
    ensures
        text_view(copy) == text_view(*text),
{
    match text {
        None => None,
        Some(t) => Some(t.clone()),
    }
}

impl FieldView {
    /// A column that holds an integer.
    pub open spec fn integer(column: Seq<char>, value: Option<int>) -> FieldView {
        FieldView {
            column,
            kind: Kind::Exact,
            value: match value {
                None => None,
                Some(v) => Some(ValueView::Integer(v)),
            },
        }
    }

    /// A column that holds a flag.
    pub open spec fn flag(column: Seq<char>, value: Option<bool>) -> FieldView {
        FieldView {
            column,
            kind: Kind::Exact,
            value: match value {
                None => None,
                Some(v) => Some(ValueView::Flag(v)),
            },
        }
    }

    /// A column that holds a decimal number.
    pub open spec fn decimal(column: Seq<char>, value: Option<Decimal>) -> FieldView {
        FieldView {
            column,
            kind: Kind::Exact,
            value: match value {
                None => None,
                Some(v) => Some(ValueView::Real(v.bits)),
            },
        }
    }

    /// A column that holds a text, searched as `kind` says.
    pub open spec fn text(column: Seq<char>, kind: Kind, value: Option<Seq<char>>) -> FieldView {
        FieldView {
            column,
            kind,
            value: match value {
                None => None,
                Some(v) => Some(ValueView::Text(v)),
            },
        }
    }

    /// A column that holds a day.
    pub open spec fn date(column: Seq<char>, value: Option<DateView>) -> FieldView {
        FieldView {
            column,
            kind: Kind::Exact,
            value: match value {
                None => None,
                Some(v) => Some(ValueView::Date(v)),
            },
        }
    }
}

/// An optional 32-bit count as an optional integer.
pub open spec fn widened(value: Option<u32>) -> Option<int> {
    match value {
        None => None,
        Some(v) => Some(v as int),
    }
}

/// An optional 64-bit integer as an optional integer.
pub open spec fn integral(value: Option<i64>) -> Option<int> {
    match value {
        None => None,
        Some(v) => Some(v as int),
    }
}

impl Field {
    /// A column that holds an integer.
    pub fn integer(column: &'static str, value: Option<i64>) -> (field: Field)
        ensures
            field@ == FieldView::integer(column@, integral(value)),
    {
        let held = match value {
            None => None,
            Some(v) => Some(Value::Integer(v)),
        };
        Field { column, kind: Kind::Exact, value: held }
    }

    /// A column that holds a count or an identifier that is never negative.
    pub fn unsigned(column: &'static str, value: Option<u32>) -> (field: Field)
        ensures
            field@ == FieldView::integer(column@, widened(value)),
    {
        let held = match value {
            None => None,
            Some(v) => Some(Value::Integer(v as i64)),
        };
        Field { column, kind: Kind::Exact, value: held }
    }

    /// A column that holds a flag.
    pub fn flag(column: &'static str, value: Option<bool>) -> (field: Field)
        ensures
            field@ == FieldView::flag(column@, value),
    {
        let held = match value {
            None => None,
            Some(v) => Some(Value::Flag(v)),
        };
        Field { column, kind: Kind::Exact, value: held }
    }

    /// A column that holds a decimal number.
    pub fn decimal(column: &'static str, value: Option<Decimal>) -> (field: Field)
        ensures
            field@ == FieldView::decimal(column@, value),
    {
        let held = match value {
            None => None,
            Some(v) => Some(Value::Real(v)),
        };
        Field { column, kind: Kind::Exact, value: held }
    }

    /// A column that holds a text, searched as `kind` says.
    pub fn text(column: &'static str, kind: Kind, value: &Option<String>) -> (field: Field)
        ensures
            field@ == FieldView::text(column@, kind, text_view(*value)),
    {
        let held = match value {
            None => None,
            Some(v) => Some(Value::Text(v.clone())),
        };
        Field { column, kind, value: held }
    }

    /// A column that holds a day.
    pub fn date(column: &'static str, value: Option<Date>) -> (field: Field)
        ensures
            field@ == FieldView::date(column@, date_view(value)),
    {
        let held = match value {
            None => None,
            Some(v) => Some(Value::Date(v)),
        };
        Field { column, kind: Kind::Exact, value: held }
    }
}

} // verus!
