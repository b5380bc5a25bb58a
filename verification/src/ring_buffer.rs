//! Fixed-capacity circular byte buffer with FIFO semantics.
//!
//! The buffer is modelled by the sequence of bytes it holds, oldest first:
//! a push appends to the back of that sequence, a pop removes from its front.
//! The buffer has no internal locking; a caller holds it exclusively for
//! the duration of each operation.

use vstd::prelude::*;

use crate::config::RING_BUFFER_LEN;
use crate::errors::RingBufferError;
use crate::utils::bytes::copy_run;
use crate::fixed_vec::{
    fixed_vec_as_slice, fixed_vec_bytes, fixed_vec_extend_from_slice, fixed_vec_new,
};

verus! {

/// Circular byte buffer of capacity [`RING_BUFFER_LEN`].
pub struct RingBuffer {
    buffer: [u8; RING_BUFFER_LEN],
    write_pos: usize,
    read_pos: usize,
    count: usize,
}

/// Position `x` folded back into the storage, for `x` below twice the capacity.
pub open spec fn wrap(x: int) -> int {
    if x < RING_BUFFER_LEN as int {
        x
    } else {
        x - RING_BUFFER_LEN as int
    }
}

/// Whether `data` fits in the free space beside `content`.
pub open spec fn push_fits(content: Seq<u8>, data: Seq<u8>) -> bool {
    data.len() <= RING_BUFFER_LEN - content.len()
}

/// The content after a push of `data`: all of `data` is admitted, or none.
pub open spec fn after_push(content: Seq<u8>, data: Seq<u8>) -> Seq<u8> {
    if push_fits(content, data) {
        content + data
    } else {
        content
    }
}

/// Number of bytes that a pop into an output with `room` bytes moves.
pub open spec fn pop_count(content: Seq<u8>, room: nat) -> nat {
    if room < content.len() {
        room
    } else {
        content.len()
    }
}

/// The bytes that a pop into an output with `room` bytes moves: the oldest.
pub open spec fn popped_by(content: Seq<u8>, room: nat) -> Seq<u8> {
    content.subrange(0, pop_count(content, room) as int)
}

/// The content after a pop into an output with `room` bytes.
pub open spec fn after_pop(content: Seq<u8>, room: nat) -> Seq<u8> {
    content.subrange(pop_count(content, room) as int, content.len() as int)
}

impl View for RingBuffer {
    type V = Seq<u8>;

    /// The buffered bytes, oldest first.
    closed spec fn view(&self) -> Seq<u8> {
        Seq::new(self.count as nat, |i: int| self.buffer@[wrap(self.read_pos as int + i)])
    }
}

impl RingBuffer {
    /// The cursors lie in the storage, the count does not exceed the
    /// capacity, and the write cursor is the read cursor advanced by the count.
    pub closed spec fn wf(&self) -> bool {
        &&& self.read_pos < RING_BUFFER_LEN
        &&& self.write_pos < RING_BUFFER_LEN
        &&& self.count <= RING_BUFFER_LEN
        &&& self.write_pos as int == wrap(self.read_pos as int + self.count as int)
    }

    /// The backing storage, by position.
    pub closed spec fn storage(&self) -> Seq<u8> {
        self.buffer@
    }

    /// The position at which the next byte is read.
    pub closed spec fn read_cursor(&self) -> nat {
        self.read_pos as nat
    }

    /// The position at which the next byte is written.
    pub closed spec fn write_cursor(&self) -> nat {
        self.write_pos as nat
    }

    /// A well-formed buffer never holds more than its capacity, and its
    /// cursors and storage have the fixed size.
    pub proof fn lemma_bounded(&self)
        requires
            self.wf(),
        ensures
            self@.len() <= RING_BUFFER_LEN,
            self.storage().len() == RING_BUFFER_LEN,
            self.read_cursor() < RING_BUFFER_LEN,
            self.write_cursor() < RING_BUFFER_LEN,
            self.write_cursor() == wrap(self.read_cursor() + self@.len() as int),
            forall|i: int|
                0 <= i < self@.len() ==> self@[i] == self.storage()[wrap(
                    self.read_cursor() as int + i,
                )],
    {
    }

    /// Creates an empty buffer with zeroed storage.
    pub fn new() -> (buffer: Self)
        ensures
            buffer.wf(),
            buffer@ == Seq::<u8>::empty(),
            buffer.read_cursor() == 0,
            buffer.write_cursor() == 0,
            forall|i: int| 0 <= i < RING_BUFFER_LEN ==> buffer.storage()[i] == 0,
    {
        let buffer = RingBuffer {
            buffer: [0u8; RING_BUFFER_LEN],
            write_pos: 0,
            read_pos: 0,
            count: 0,
        };
        assert(buffer@ =~= Seq::<u8>::empty());
        buffer
    }

    /// Appends `data` to the back of the buffer, or rejects it whole.
    ///
    /// The push succeeds exactly when `data` fits in the free space. On
    /// rejection nothing changes: not the content, not the count, not the
    /// cursors, not the storage.
    pub fn push(&mut self, data: &[u8]) -> (result: Result<(), RingBufferError>)
        requires
            old(self).wf(),
        ensures
            final(self).wf(),
            final(self)@ == after_push(old(self)@, data@),
            push_fits(old(self)@, data@) ==> result is Ok
                && final(self).read_cursor() == old(self).read_cursor(),
            !push_fits(old(self)@, data@) ==> result == Err::<(), RingBufferError>(
                RingBufferError::BufferOverflow,
            ) && *final(self) == *old(self),
    {
        let data_len = data.len();
        if data_len > self.available_space() {
            return Err(RingBufferError::BufferOverflow);
        }
        let room_to_end = RING_BUFFER_LEN - self.write_pos;
        let first_chunk_len = if data_len < room_to_end {
            data_len
        } else {
            room_to_end
        };
        let second_chunk_len = data_len - first_chunk_len;

        copy_run(&mut self.buffer, self.write_pos, data, 0, first_chunk_len);
        if second_chunk_len > 0 {
            copy_run(&mut self.buffer, 0, data, first_chunk_len, second_chunk_len);
        }
        self.write_pos = (self.write_pos + data_len) % RING_BUFFER_LEN;
        self.count += data_len;

        proof {
            let before = old(self)@;
            let after = self@;
            assert(after.len() == before.len() + data@.len());
            assert forall|i: int| 0 <= i < after.len() implies after[i] == (before + data@)[i] by {
                if i < before.len() {
                    assert(after[i] == self.buffer@[wrap(self.read_pos as int + i)]);
                } else {
                    let j = i - before.len();
                    assert(wrap(self.read_pos as int + i) == wrap(old(self).write_pos as int + j));
                }
            }
            assert(after =~= before + data@);
        }
        Ok(())
    }

    /// Removes bytes from the front of the buffer into `output`.
    ///
    /// Moves as many bytes as both the buffer holds and `output` has room
    /// for, oldest first, to the start of `output`; the rest of `output`
    /// is untouched. Returns the number of bytes moved; an empty buffer
    /// gives 0.
    pub fn pop(&mut self, output: &mut [u8]) -> (moved: usize)
        requires
            old(self).wf(),
        ensures
            final(self).wf(),
            moved == pop_count(old(self)@, old(output)@.len()),
            final(output)@ == popped_by(old(self)@, old(output)@.len()) + old(output)@.subrange(
                moved as int,
                old(output)@.len() as int,
            ),
            final(self)@ == after_pop(old(self)@, old(output)@.len()),
            final(self).write_cursor() == old(self).write_cursor(),
            final(self).storage() == old(self).storage(),
    {
        let to_read = if output.len() < self.count {
            output.len()
        } else {
            self.count
        };
        if to_read == 0 {
            assert(output@ =~= old(self)@.subrange(0, 0) + old(output)@.subrange(
                0,
                old(output)@.len() as int,
            ));
            assert(self@ =~= old(self)@.subrange(0, old(self)@.len() as int));
            return 0;
        }
        let room_to_end = RING_BUFFER_LEN - self.read_pos;
        let first_chunk_len = if to_read < room_to_end {
            to_read
        } else {
            room_to_end
        };
        let second_chunk_len = to_read - first_chunk_len;

        copy_run(output, 0, &self.buffer, self.read_pos, first_chunk_len);
        if second_chunk_len > 0 {
            copy_run(output, first_chunk_len, &self.buffer, 0, second_chunk_len);
        }
        self.read_pos = (self.read_pos + to_read) % RING_BUFFER_LEN;
        self.count -= to_read;

        proof {
            let before = old(self)@;
            let expected = before.subrange(0, to_read as int) + old(output)@.subrange(
                to_read as int,
                old(output)@.len() as int,
            );
            assert forall|i: int| 0 <= i < output@.len() implies output@[i] == expected[i] by {
                if i < to_read {
                    assert(before[i] == old(self).buffer@[wrap(old(self).read_pos as int + i)]);
                }
            }
            assert(output@ =~= expected);
            let rest = before.subrange(to_read as int, before.len() as int);
            assert forall|i: int| 0 <= i < self@.len() implies self@[i] == rest[i] by {
                assert(wrap(self.read_pos as int + i) == wrap(
                    old(self).read_pos as int + to_read as int + i,
                ));
            }
            assert(self@ =~= rest);
        }
        to_read
    }

    /// Appends the bytes of a fixed-capacity vector, as [`RingBuffer::push`]
    /// appends a slice.
    pub fn push_n(&mut self, data: &heapless::Vec<u8, RING_BUFFER_LEN>) -> (result: Result<
        (),
        RingBufferError,
    >)
        requires
            old(self).wf(),
        ensures
            final(self).wf(),
            final(self)@ == after_push(old(self)@, fixed_vec_bytes(*data)),
            push_fits(old(self)@, fixed_vec_bytes(*data)) ==> result is Ok,
            !push_fits(old(self)@, fixed_vec_bytes(*data)) ==> result == Err::<
                (),
                RingBufferError,
            >(RingBufferError::BufferOverflow) && *final(self) == *old(self),
    {
        self.push(fixed_vec_as_slice(data))
    }

    /// Extracts up to `count` bytes from the front of the buffer into a
    /// fixed-capacity vector.
    ///
    /// A request for more than the buffer holds is silently cut to what it
    /// holds.
    pub fn pop_n(&mut self, count: usize) -> (result: heapless::Vec<u8, RING_BUFFER_LEN>)
        requires
            old(self).wf(),
        ensures
            final(self).wf(),
            fixed_vec_bytes(result) == popped_by(old(self)@, count as nat),
            final(self)@ == after_pop(old(self)@, count as nat),
    {
        let mut result = fixed_vec_new();
        let to_read = if count < self.count {
            count
        } else {
            self.count
        };
        if to_read == 0 {
            assert(old(self)@.subrange(0, 0) =~= Seq::<u8>::empty());
            assert(self@ =~= old(self)@.subrange(0, old(self)@.len() as int));
            return result;
        }
        let mut temp_buf = [0u8; RING_BUFFER_LEN];
        let (head, _tail) = temp_buf.split_at_mut(to_read);
        let bytes_read = self.pop(head);
        let filled = vstd::slice::slice_subrange(temp_buf.as_slice(), 0, bytes_read);
        assert(filled@ =~= old(self)@.subrange(0, to_read as int));
        let _ = fixed_vec_extend_from_slice(&mut result, filled);
        result
    }

    /// Number of bytes held.
    pub fn len(&self) -> (n: usize)
        ensures
            n == self@.len(),
    {
        self.count
    }

    /// Whether the buffer holds no byte.
    pub fn is_empty(&self) -> (empty: bool)
        ensures
            empty <==> self@.len() == 0,
    {
        self.count == 0
    }

    /// Number of bytes that can still be pushed.
    pub fn available_space(&self) -> (space: usize)
        requires
            self.wf(),
        ensures
            space == RING_BUFFER_LEN - self@.len(),
    {
        RING_BUFFER_LEN - self.count
    }

    /// Empties the buffer, resets both cursors and zeroes the storage.
    pub fn clear(&mut self)
        ensures
            final(self).wf(),
            final(self)@ == Seq::<u8>::empty(),
            final(self).read_cursor() == 0,
            final(self).write_cursor() == 0,
            final(self).storage().len() == RING_BUFFER_LEN,
            forall|i: int| 0 <= i < RING_BUFFER_LEN ==> final(self).storage()[i] == 0,
    {
        self.write_pos = 0;
        self.read_pos = 0;
        self.count = 0;
        let mut i: usize = 0;
        while i < RING_BUFFER_LEN
            invariant
                i <= RING_BUFFER_LEN,
                self.write_pos == 0,
                self.read_pos == 0,
                self.count == 0,
                forall|k: int| 0 <= k < i ==> self.buffer@[k] == 0,
            decreases RING_BUFFER_LEN - i,
        {
            self.buffer[i] = 0;
            i += 1;
        }
        assert(self@ =~= Seq::<u8>::empty());
    }
}

impl Default for RingBuffer {
    fn default() -> (buffer: Self)
        ensures
            buffer.wf(),
            buffer@ == Seq::<u8>::empty(),
    {
        RingBuffer::new()
    }
}

/// One operation on a buffer, as the laws of this module see it.
pub enum FifoOp {
    /// A push of these bytes.
    Push(Seq<u8>),
    /// A pop into an output with room for this many bytes.
    Pop(nat),
}

/// What a run of operations has done to a buffer that started empty.
pub struct FifoTrace {
    /// The bytes in the buffer, oldest first.
    pub content: Seq<u8>,
    /// All bytes handed to pushes so far, in push order.
    pub pushed: Seq<u8>,
    /// All bytes that pops have returned so far, in pop order.
    pub popped: Seq<u8>,
    /// Whether some push was rejected for lack of space.
    pub overflowed: bool,
}

/// The trace of one more operation, by the contracts of [`RingBuffer::push`]
/// and [`RingBuffer::pop`].
pub open spec fn fifo_step(before: FifoTrace, op: FifoOp) -> FifoTrace {
    match op {
        FifoOp::Push(data) => FifoTrace {
            content: after_push(before.content, data),
            pushed: before.pushed + data,
            popped: before.popped,
            overflowed: before.overflowed || !push_fits(before.content, data),
        },
        FifoOp::Pop(room) => FifoTrace {
            content: after_pop(before.content, room),
            pushed: before.pushed,
            popped: before.popped + popped_by(before.content, room),
            overflowed: before.overflowed,
        },
    }
}

/// The trace of a run of operations on a buffer that started empty.
pub open spec fn fifo_run(ops: Seq<FifoOp>) -> FifoTrace
    decreases ops.len(),
{
    if ops.len() == 0 {
        FifoTrace {
            content: Seq::empty(),
            pushed: Seq::empty(),
            popped: Seq::empty(),
            overflowed: false,
        }
    } else {
        fifo_step(fifo_run(ops.drop_last()), ops.last())
    }
}

/// First in, first out: over any interleaving of pushes and pops in which no
/// push overflowed, the bytes popped so far, followed by the bytes still
/// buffered, are the bytes pushed, in push order.
pub proof fn lemma_fifo_order(ops: Seq<FifoOp>)
    requires
        !fifo_run(ops).overflowed,
    ensures
        fifo_run(ops).popped + fifo_run(ops).content == fifo_run(ops).pushed,
        fifo_run(ops).popped == fifo_run(ops).pushed.subrange(
            0,
            fifo_run(ops).popped.len() as int,
        ),
    decreases ops.len(),
{
    if ops.len() > 0 {
        let after = fifo_run(ops);
        lemma_fifo_order(ops.drop_last());
        assert(after.popped + after.content =~= after.pushed);
    }
    let trace = fifo_run(ops);
    assert(trace.popped + trace.content =~= trace.pushed);
    assert(trace.popped =~= trace.pushed.subrange(0, trace.popped.len() as int));
}

/// Accounting: over any run of operations in which no push overflowed, the
/// buffer holds as many bytes as were pushed less those popped, and never
/// more than its capacity.
pub proof fn lemma_fifo_accounting(ops: Seq<FifoOp>)
    requires
        !fifo_run(ops).overflowed,
    ensures
        fifo_run(ops).content.len() == fifo_run(ops).pushed.len() - fifo_run(ops).popped.len(),
        fifo_run(ops).content.len() <= RING_BUFFER_LEN,
    decreases ops.len(),
{
    if ops.len() > 0 {
        lemma_fifo_accounting(ops.drop_last());
    }
}

} // verus!
