//! Stored values on their way back into an entity.
//!
//! The store keeps identifiers and counts as 64-bit integers and a flag as an
//! integer. An entity holds them as 32-bit counts and as `bool`. A stored
//! integer that does not fit is refused, never cut down.

use vstd::prelude::*;

verus! {

/// The columns whose stored integer has to fit into 32 bits.
#[derive(Clone, Copy, Debug, PartialEq, Eq, Structural)]
pub enum Narrowed {
    Id,
    Quantity,
    EmployeeId,
}

/// A stored integer that an entity cannot hold.
#[derive(Clone, Copy, Debug, PartialEq, Eq, Structural)]
pub struct OutOfRange {
    pub column: Narrowed,
    pub value: i64,
}

/// Whether a stored integer, if there is one, can be held in 32 bits without
/// a sign.
pub open spec fn fits(value: Option<i64>) -> bool {
    value is Some ==> 0 <= value.unwrap() <= u32::MAX
}

/// The stored integer as a 32-bit count, where it fits.
pub open spec fn narrowed(value: Option<i64>) -> Option<u32> {
    match value {
        None => None,
        Some(v) => Some(v as u32),
    }
}

/// The flag that a stored integer stands for: set where it is 1.
pub open spec fn flag_of(value: Option<i64>) -> Option<bool> {
    match value {
        None => None,
        Some(v) => Some(v == 1),
    }
}

/// The integer that a flag is stored as.
pub open spec fn stored_flag(value: Option<bool>) -> Option<i64> {
    match value {
        None => None,
        Some(v) => Some(if v { 1i64 } else { 0i64 }),
    }
}

/// The integer that a count is stored as.
pub open spec fn stored_count(value: Option<u32>) -> Option<i64> {
    match value {
        None => None,
        Some(v) => Some(v as i64),
    }
}

/// Narrows the stored integer of `column` to 32 bits, or refuses it where it
/// is negative or too large.
pub fn narrow(column: Narrowed, value: Option<i64>) -> (result: Result<Option<u32>, OutOfRange>)
    ensures
        fits(value) ==> result == Ok::<Option<u32>, OutOfRange>(narrowed(value)),
        !fits(value) ==> result == Err::<Option<u32>, OutOfRange>(
            OutOfRange { column, value: value.unwrap() },
        ),
{
    match value {
        None => Ok(None),
        Some(v) => {
            if 0 <= v && v <= 0xFFFF_FFFF {
                Ok(Some(v as u32))
            } else {
                Err(OutOfRange { column, value: v })
            }
        },
    }
}

/// Reads a stored integer as a flag: set where the integer is 1, unset for
/// any other integer, and absent where nothing is stored.
pub fn read_flag(value: Option<i64>) -> (flag: Option<bool>)
    ensures
        flag == flag_of(value),
{
    match value {
        None => None,
        Some(v) => Some(v == 1),
    }
}

/// A count that was stored comes back as it was.
pub proof fn lemma_count_round_trip(value: Option<u32>)
    ensures
        fits(stored_count(value)),
        narrowed(stored_count(value)) == value,
{
}

/// A flag that was stored comes back as it was, and an absent flag stays
/// absent: it is never read as unset.
pub proof fn lemma_flag_round_trip(value: Option<bool>)
    ensures
        flag_of(stored_flag(value)) == value,
{
}

} // verus!
