//! The answers that the server's endpoints give.
use vstd::prelude::*;

verus! {

/// The HTTP status of an answer.
#[derive(PartialEq, Eq, Structural, Clone, Copy, Debug)]
pub enum Status {
    /// `200 OK`
    Success,
    /// `202 Accepted`
    Accepted,
    Forbidden,
    NotFound,
    InternalServerError,
}

/// An answer: a status and a body (empty for `finish()`).
#[derive(Debug)]
pub struct Reply {
    pub status: Status,
    pub body: String,
}

/// How an `UPDATE` or `DELETE` of a single row went: the number of rows it
/// affected, or `None` where the statement failed.
pub open spec fn one_row_status(affected: Option<u64>) -> Status {
    if affected == Some(1u64) {
        Status::Success
    } else {
        Status::InternalServerError
    }
}

/// `200` when the statement affected exactly one row, else `500`.
pub fn status_of_update(affected: Option<u64>) -> (r: Status)
    ensures
        r == one_row_status(affected),
        affected == Some(1u64) ==> r == Status::Success,
        affected != Some(1u64) ==> r == Status::InternalServerError,
{
    match affected {
        Some(n) => if n == 1 {
            Status::Success
        } else {
            Status::InternalServerError
        },
        None => Status::InternalServerError,
    }
}

/// An answer with an empty body.
pub fn finish(status: Status) -> (r: Reply)
    ensures
        r.status == status,
        r.body@ == Seq::<char>::empty(),
{
    Reply { status, body: String::new() }
}

} // verus!
