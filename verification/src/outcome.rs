//! What a caller is told of an operation on the store.

use vstd::prelude::*;

verus! {

/// The answer to a request.
#[derive(Clone, Copy, Debug, PartialEq, Eq, Structural)]
pub enum Status {
    /// The request was served; what was asked for follows.
    Success,
    /// A row was created.
    Created,
    /// The row was removed; nothing follows.
    NoContent,
    /// No row has the identifier that the request names.
    NotFound,
    /// The store failed. The reason is kept from the caller.
    InternalServerError,
}

impl Status {
    /// The number of the answer.
    pub open spec fn number(self) -> int {
        match self {
            Status::Success => 200,
            Status::Created => 201,
            Status::NoContent => 204,
            Status::NotFound => 404,
            Status::InternalServerError => 500,
        }
    }

    /// The number of the answer.
    pub fn code(&self) -> (code: u16)
        ensures
            code == self.number(),
    {
        match self {
            Status::Success => 200,
            Status::Created => 201,
            Status::NoContent => 204,
            Status::NotFound => 404,
            Status::InternalServerError => 500,
        }
    }
}

/// Whether a statement that touched `rows_affected` rows changed the store.
pub fn rows_changed(rows_affected: u64) -> (changed: bool)
    ensures
        changed == (rows_affected > 0),
{
    rows_affected > 0
}

/// Whether an update changed a row. `rows_affected` is absent where there
/// was nothing to run, and then no row has changed.
pub fn update_outcome(rows_affected: Option<u64>) -> (changed: bool)
    ensures
        changed == (rows_affected is Some && rows_affected.unwrap() > 0),
{
    match rows_affected {
        None => false,
        Some(rows) => rows_changed(rows),
    }
}

/// The answer to a listing or a search.
pub fn listed<T, E>(outcome: &Result<T, E>) -> (status: Status)
    ensures
        status == match *outcome {
            Ok(_) => Status::Success,
            Err(_) => Status::InternalServerError,
        },
{
    match outcome {
        Ok(_) => Status::Success,
        Err(_) => Status::InternalServerError,
    }
}

/// The answer to the creation of a row.
pub fn created<T, E>(outcome: &Result<T, E>) -> (status: Status)
    ensures
        status == match *outcome {
            Ok(_) => Status::Created,
            Err(_) => Status::InternalServerError,
        },
{
    match outcome {
        Ok(_) => Status::Created,
        Err(_) => Status::InternalServerError,
    }
}

/// The answer to the removal of a row, given whether a row was removed.
pub fn deleted<E>(outcome: &Result<bool, E>) -> (status: Status)
    ensures
        status == match *outcome {
            Ok(true) => Status::NoContent,
            Ok(false) => Status::NotFound,
            Err(_) => Status::InternalServerError,
        },
{
    match outcome {
        Ok(true) => Status::NoContent,
        Ok(false) => Status::NotFound,
        Err(_) => Status::InternalServerError,
    }
}

/// The answer to the update of a row, given whether a row was changed.
pub fn updated<E>(outcome: &Result<bool, E>) -> (status: Status)
    ensures
        status == match *outcome {
            Ok(true) => Status::Success,
            Ok(false) => Status::NotFound,
            Err(_) => Status::InternalServerError,
        },
{
    match outcome {
        Ok(true) => Status::Success,
        Ok(false) => Status::NotFound,
        Err(_) => Status::InternalServerError,
    }
}

/// How a flag with three states is shown: set, unset, or not known.
pub fn status_label(status: Option<bool>) -> (label: &'static str)
    ensures
        label@ == match status {
            Some(true) => "active"@,
            Some(false) => "inactive"@,
            None => "None"@,
        },
{
    match status {
        Some(true) => "active",
        Some(false) => "inactive",
        None => "None",
    }
}

} // verus!
