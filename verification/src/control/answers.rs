//! How an error body and a fault read, field by field.
use crate::control::fault::RouterError;
use crate::control::wire::ErrorBody;
use vstd::prelude::*;

verus! {

/// The error's fields: this code, this message and no detail.
pub open spec fn tells(error: ErrorBody, code: Seq<char>, message: Seq<char>) -> bool {
    &&& error.code@ == code
    &&& error.message@ == message
    &&& error.detail is None
}

/// The fault's fields: channel 0, this correlation id and this message.
pub open spec fn faults(fault: RouterError, corr: u64, message: Seq<char>) -> bool {
    fault matches RouterError::Backend { channel, corr: of, message: text } && channel == 0 && of
        == corr && text@ == message
}

/// The `i`-th of several results is the first that failed.
pub open spec fn first_failure<A, E>(readings: Seq<Result<A, E>>, i: int) -> bool {
    &&& 0 <= i < readings.len()
    &&& readings[i] is Err
    &&& forall|j: int| 0 <= j < i ==> (#[trigger] readings[j]) is Ok
}

} // verus!
