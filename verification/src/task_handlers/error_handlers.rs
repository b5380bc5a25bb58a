//! Fault dispatch: every fault of the system ends as a numeric code in the
//! fault-code queue.
//!
//! The queue is reachable from every priority level. The caller holds it
//! exclusively, inside a critical section, for each of these short calls.

use vstd::prelude::*;

use crate::error_queue::{FaultCodeQueue, ERROR_QUEUE_CAPACITY};
use crate::errors::DeviceError;

verus! {

/// The queue after an attempt to add `code`: a full queue drops the code.
pub open spec fn after_add(codes: Seq<u16>, code: u16) -> Seq<u16> {
    if codes.len() < ERROR_QUEUE_CAPACITY {
        codes.push(code)
    } else {
        codes
    }
}

/// Adds a fault code at the back of the queue.
///
/// Fails, leaving the queue as it was, exactly when the queue is full.
pub fn add_error_code(queue: &mut FaultCodeQueue, code: u16) -> (result: Result<
    (),
    &'static str,
>)
    ensures
        final(queue)@ == after_add(old(queue)@, code),
        final(queue)@.len() <= ERROR_QUEUE_CAPACITY,
        old(queue)@.len() < ERROR_QUEUE_CAPACITY ==> result is Ok,
        old(queue)@.len() >= ERROR_QUEUE_CAPACITY ==> result is Err && result->Err_0@
            == "Error queue is full"@,
{
    if queue.enqueue(code).is_err() {
        Err("Error queue is full")
    } else {
        Ok(())
    }
}

/// Takes the oldest fault code from the queue, if there is one.
pub fn get_first_error_code(queue: &mut FaultCodeQueue) -> (code: Option<u16>)
    ensures
        old(queue)@.len() == 0 ==> code is None && final(queue)@ == old(queue)@,
        old(queue)@.len() > 0 ==> code == Some(old(queue)@[0])
            && final(queue)@ == old(queue)@.drop_first(),
{
    queue.dequeue()
}

/// Whether a fault code waits in the queue.
pub fn has_errors(queue: &FaultCodeQueue) -> (waiting: bool)
    ensures
        waiting <==> queue@.len() > 0,
{
    !queue.is_empty()
}

/// Central fault handler: queues the numeric code of `error` for display.
///
/// A full queue drops the code; the loss never reaches the caller.
pub fn handle_error(queue: &mut FaultCodeQueue, error: DeviceError)
    ensures
        final(queue)@ == after_add(old(queue)@, error.spec_code()),
        final(queue)@.len() <= ERROR_QUEUE_CAPACITY,
{
    let _ = add_error_code(queue, error.code());
}

} // verus!
