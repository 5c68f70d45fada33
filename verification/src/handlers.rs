//! The HTTP handlers' decisions.
//!
//! Every handler shares one shape: check authorization, run the resource
//! operation, answer with a status code and an optional JSON body. The
//! decision from those two outcomes to the response is planned here; the
//! listener performs it.

use vstd::prelude::*;

verus! {

/// The operation a handler serves.
#[derive(Debug, Clone, Copy, PartialEq, Eq)]
pub enum Operation {
    /// Read a filtered page of a resource.
    Search,
    /// Store a batch of resources.
    Index,
    /// Remove one resource by id.
    Delete,
    /// Rebuild the resource's index.
    Reset,
}

/// The status a handler answers: denied requests get 401 with no body;
/// a failed operation gets 422; success answers 200 for a read, 201 for
/// a store, and 204 for a removal or a rebuild.
pub open spec fn spec_response_status(op: Operation, authorized: bool, ok: bool) -> u16 {
    if !authorized {
        401
    } else if !ok {
        422
    } else {
        match op {
            Operation::Search => 200,
            Operation::Index => 201,
            Operation::Delete => 204,
            Operation::Reset => 204,
        }
    }
}

/// Decide the response status of a handler run.
pub fn response_status(op: Operation, authorized: bool, ok: bool) -> (r: u16)
    ensures
        r == spec_response_status(op, authorized, ok),
{
    if !authorized {
        401
    } else if !ok {
        422
    } else {
        match op {
            Operation::Search => 200,
            Operation::Index => 201,
            Operation::Delete => 204,
            Operation::Reset => 204,
        }
    }
}

/// Whether a response of this status carries a JSON body: a successful
/// read does, and a failed operation carries the error; denied and empty
/// successes carry nothing.
pub open spec fn spec_response_has_body(op: Operation, authorized: bool, ok: bool) -> bool {
    authorized && (!ok || op is Search)
}

/// Decide whether the response carries a body.
pub fn response_has_body(op: Operation, authorized: bool, ok: bool) -> (r: bool)
    ensures
        r == spec_response_has_body(op, authorized, ok),
{
    authorized && (!ok || matches!(op, Operation::Search))
}

} // verus!
