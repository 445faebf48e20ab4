use vstd::prelude::*;
use crate::status::Status;

verus! {

/// One backend call of an operation, with the status that the operation
/// answers with when this call fails. The calls of an operation are made in
/// order; the first one that fails ends the operation.
#[derive(Debug)]
pub struct Call<A> {
    pub action: A,
    pub on_failure: Status,
}

/// The status that an operation ends with when `fails` tells which of its calls
/// the backend refuses: that of the first refused call, or success when the
/// backend accepts them all.
pub open spec fn plan_outcome<A>(calls: Seq<Call<A>>, fails: spec_fn(A) -> bool) -> Status
    decreases calls.len(),
{
    if calls.len() == 0 {
        Status::Success
    } else if fails(calls[0].action) {
        calls[0].on_failure
    } else {
        plan_outcome(calls.drop_first(), fails)
    }
}

} // verus!
