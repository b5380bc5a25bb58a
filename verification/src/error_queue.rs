//! Bounded FIFO of 16-bit fault codes.
//!
//! The queue is the single-producer single-consumer queue of `heapless`,
//! held whole by one owner. It is not verified here: its contents are given
//! a name, and each operation the library calls is stated over that name as
//! the queue's source shows it.

use vstd::prelude::*;

verus! {

/// Number of codes the queue holds when full.
pub const ERROR_QUEUE_CAPACITY: usize = 256;

/// Slots of the underlying queue, which always keeps one slot free.
pub const ERROR_QUEUE_SLOTS: usize = 257;

/// `heapless::spsc::Queue`, the fixed-capacity queue: carried through as an
/// opaque value. Nothing is claimed of it here.
#[verifier::external_type_specification]
#[verifier::external_body]
#[verifier::reject_recursive_types(T)]
pub struct ExQueue<T, const N: usize>(heapless::spsc::Queue<T, N>);

/// The codes that a `heapless::spsc::Queue` holds, oldest first: the items
/// between its head and its tail. The operations below are stated over this
/// name.
pub uninterp spec fn queue_codes(q: heapless::spsc::Queue<u16, ERROR_QUEUE_SLOTS>) -> Seq<u16>;

/// `heapless::spsc::Queue::new`: the new queue holds nothing. A queue of `N`
/// slots has room for `N - 1` items.
#[verifier::external_body]
fn queue_new() -> (q: heapless::spsc::Queue<u16, ERROR_QUEUE_SLOTS>)
    ensures
        queue_codes(q) == Seq::<u16>::empty(),
{
    heapless::spsc::Queue::new()
}

/// `heapless::spsc::Queue::enqueue`: a queue with a free place takes the
/// code at its back; a full queue hands the code back and is unchanged. A
/// queue of `N` slots is full at `N - 1` items.
#[verifier::external_body]
fn queue_enqueue(
    q: &mut heapless::spsc::Queue<u16, ERROR_QUEUE_SLOTS>,
    code: u16,
) -> (result: Result<(), u16>)
    ensures
        queue_codes(*final(q)).len() <= ERROR_QUEUE_CAPACITY,
        queue_codes(*old(q)).len() < ERROR_QUEUE_CAPACITY ==> result is Ok && queue_codes(
            *final(q),
        ) == queue_codes(*old(q)).push(code),
        queue_codes(*old(q)).len() >= ERROR_QUEUE_CAPACITY ==> result is Err && result->Err_0
            == code && queue_codes(*final(q)) == queue_codes(*old(q)),
{
    q.enqueue(code)
}

/// `heapless::spsc::Queue::dequeue`: an empty queue gives `None` and is
/// unchanged; otherwise the oldest code leaves the queue and is returned. The
/// queue never holds more than its capacity.
#[verifier::external_body]
fn queue_dequeue(q: &mut heapless::spsc::Queue<u16, ERROR_QUEUE_SLOTS>) -> (result: Option<u16>)
    ensures
        queue_codes(*final(q)).len() <= ERROR_QUEUE_CAPACITY,
        queue_codes(*old(q)).len() == 0 ==> result is None && queue_codes(*final(q))
            == queue_codes(*old(q)),
        queue_codes(*old(q)).len() > 0 ==> result == Some(queue_codes(*old(q))[0]) && queue_codes(
            *final(q),
        ) == queue_codes(*old(q)).drop_first(),
{
    q.dequeue()
}

/// `heapless::spsc::Queue::is_empty`: whether the queue holds no code.
#[verifier::external_body]
fn queue_is_empty(q: &heapless::spsc::Queue<u16, ERROR_QUEUE_SLOTS>) -> (empty: bool)
    ensures
        empty <==> queue_codes(*q).len() == 0,
{
    q.is_empty()
}

/// The queue of fault codes that wait to be shown.
pub struct FaultCodeQueue {
    codes: heapless::spsc::Queue<u16, ERROR_QUEUE_SLOTS>,
}

impl View for FaultCodeQueue {
    type V = Seq<u16>;

    /// The waiting codes, oldest first.
    closed spec fn view(&self) -> Seq<u16> {
        queue_codes(self.codes)
    }
}

impl FaultCodeQueue {
    /// Creates an empty queue.
    pub fn new() -> (queue: Self)
        ensures
            queue@ == Seq::<u16>::empty(),
    {
        FaultCodeQueue { codes: queue_new() }
    }

    /// Adds `code` at the back, or hands it back when the queue is full.
    pub fn enqueue(&mut self, code: u16) -> (result: Result<(), u16>)
        ensures
            final(self)@.len() <= ERROR_QUEUE_CAPACITY,
            old(self)@.len() < ERROR_QUEUE_CAPACITY ==> result is Ok
                && final(self)@ == old(self)@.push(code),
            old(self)@.len() >= ERROR_QUEUE_CAPACITY ==> result == Err::<(), u16>(code)
                && final(self)@ == old(self)@,
    {
        queue_enqueue(&mut self.codes, code)
    }

    /// Takes the oldest code, if there is one.
    pub fn dequeue(&mut self) -> (result: Option<u16>)
        ensures
            final(self)@.len() <= ERROR_QUEUE_CAPACITY,
            old(self)@.len() == 0 ==> result is None && final(self)@ == old(self)@,
            old(self)@.len() > 0 ==> result == Some(old(self)@[0])
                && final(self)@ == old(self)@.drop_first(),
    {
        queue_dequeue(&mut self.codes)
    }

    /// Whether no code waits.
    pub fn is_empty(&self) -> (empty: bool)
        ensures
            empty <==> self@.len() == 0,
    {
        queue_is_empty(&self.codes)
    }
}

} // verus!
