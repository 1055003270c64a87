//! The shared buffer state and the two role handles.
//!
//! `CircularBuffer` owns the storage and the offset counters.  `Producer` and
//! `Consumer` are the two access roles created alongside it: producer methods
//! advance the write offset and may close the stream, consumer methods
//! advance the read offset, peek ahead of it, and track the high-water mark.
//! Every operation takes the buffer it acts on explicitly, so exclusive
//! mutation is enforced by borrowing; how the buffer value is shared between
//! the two roles' execution contexts is the surrounding system's concern.

use vstd::prelude::*;
use vstd::arithmetic::power2::is_pow2;

use crate::model::{
    advance_count, advance_to_target, available_of, byte_at, copy_count, cp_after_close,
    fresh_buffer, hwm_after_advance, hwm_after_copy, inv, is_closed, read_count, size_of, window,
    write_count, BufferView,
};

verus! {

/// Circular byte buffer shared between at most one producer and one
/// consumer role.  Offsets are logical: they only grow, and are reduced
/// modulo the capacity (a power of two) when indexing the storage.
pub struct CircularBuffer {
    capacity: usize,
    storage: Vec<u8>,
    rp: usize,
    wp: usize,
    cp: usize,
    hwm: usize,
}

/// Producer end of the buffer: writes bytes in and may close the stream.
#[derive(Clone, Copy)]
pub struct Producer {}

/// Consumer end of the buffer: reads bytes out, peeks ahead of the read
/// offset, and commits read positions.
#[derive(Clone, Copy)]
pub struct Consumer {}

impl View for CircularBuffer {
    type V = BufferView;

    closed spec fn view(&self) -> BufferView {
        BufferView {
            capacity: self.capacity as nat,
            stored: self.storage@,
            rp: self.rp as nat,
            wp: self.wp as nat,
            cp: self.cp as nat,
            hwm: self.hwm as nat,
        }
    }
}

impl CircularBuffer {
    /// The buffer's invariant, preserved by every operation.
    pub open spec fn wf(&self) -> bool {
        inv(self@)
    }

    fn makebuf(size: usize, calib: usize) -> (b: CircularBuffer)
        requires
            size <= usize::MAX / 2 + 1,
        ensures
            b.wf(),
            fresh_buffer(b@, size as int, calib as int),
    {
        let mut capacity: usize = 1;
        proof {
            reveal(vstd::arithmetic::power2::is_pow2);
        }
        while capacity < size
            invariant
                1 <= capacity,
                is_pow2(capacity as int),
                capacity == 1 || capacity < 2 * size,
                size <= usize::MAX / 2 + 1,
            decreases 2 * size - capacity,
        {
            proof {
                reveal(vstd::arithmetic::power2::is_pow2);
                assert((2 * capacity as int) % 2 == 0);
                assert((2 * capacity as int) / 2 == capacity as int);
                assert(is_pow2(2 * capacity as int));
            }
            capacity = capacity * 2;
        }
        let mut storage: Vec<u8> = Vec::new();
        while storage.len() < capacity
            invariant
                storage@.len() <= capacity,
                forall|i: int| 0 <= i < storage@.len() ==> storage@[i] == 0u8,
            decreases capacity - storage.len(),
        {
            storage.push(0u8);
        }
        let b = CircularBuffer { capacity, storage, rp: calib, wp: calib, cp: 0, hwm: calib };
        proof {
            assert(b@.stored =~= Seq::new(b@.capacity, |i: int| 0u8));
        }
        b
    }

    /// Creates a buffer able to hold at least `size` bytes, with all offsets
    /// starting at zero, and returns the two role handles bound to it.
    pub fn new(size: usize) -> (r: (Producer, Consumer, CircularBuffer))
        requires
            size <= usize::MAX / 2 + 1,
        ensures
            r.2.wf(),
            fresh_buffer(r.2@, size as int, 0),
    {
        (Producer {}, Consumer {}, CircularBuffer::makebuf(size, 0))
    }

    /// Creates a buffer as `new` does, but with all offsets starting at
    /// `start`, so the buffer's numbering can align with an external global
    /// offset sequence.
    pub fn new_calibrated(size: usize, start: usize) -> (r: (Producer, Consumer, CircularBuffer))
        requires
            size <= usize::MAX / 2 + 1,
        ensures
            r.2.wf(),
            fresh_buffer(r.2@, size as int, start as int),
    {
        (Producer {}, Consumer {}, CircularBuffer::makebuf(size, start))
    }
}

/// Two distinct logical offsets less than a capacity apart land on distinct
/// storage indices, which is what makes masked indexing sound.
proof fn lemma_mod_ne(x: int, y: int, c: int)
    by (nonlinear_arith)
    requires
        0 <= x < y,
        y - x < c,
    ensures
        x % c != y % c,
{
}

impl Producer {
    /// Closes the stream: effective only the first time, when it records
    /// the write offset as the close offset.  Already-written unread bytes
    /// stay readable; no further bytes can be written.
    pub fn close(&self, b: &mut CircularBuffer)
        requires
            old(b).wf(),
        ensures
            final(b).wf(),
            final(b)@ == (BufferView { cp: cp_after_close(old(b)@), ..old(b)@ }),
    {
        if b.cp == 0 {
            b.cp = b.wp;
        }
    }

    /// Stores bytes into the buffer and returns how many were written: the
    /// whole input when it fits in the available capacity, a prefix of it
    /// otherwise, and nothing at all once the stream is closed.  A partial
    /// write is a defined steady-state, not a failure; the operation never
    /// blocks and never overwrites unread bytes.
    pub fn write(&self, b: &mut CircularBuffer, bytes: &[u8]) -> (n: usize)
        requires
            old(b).wf(),
            old(b)@.wp + write_count(old(b)@, bytes@.len() as int) <= usize::MAX,
        ensures
            final(b).wf(),
            n == write_count(old(b)@, bytes@.len() as int),
            final(b)@.capacity == old(b)@.capacity,
            final(b)@.rp == old(b)@.rp,
            final(b)@.cp == old(b)@.cp,
            final(b)@.hwm == old(b)@.hwm,
            final(b)@.wp == old(b)@.wp + n,
            window(final(b)@) == window(old(b)@) + bytes@.take(n as int),
            is_closed(old(b)@) ==> final(b)@ == old(b)@,
    {
        if b.cp != 0 {
            proof {
                assert(window(b@) =~= window(old(b)@) + bytes@.take(0));
            }
            return 0;
        }
        let avail = b.capacity - (b.wp - b.rp);
        let len = bytes.len();
        let to_write = if len <= avail {
            len
        } else {
            avail
        };
        let mut i: usize = 0;
        while i < to_write
            invariant
                old(b).wf(),
                i <= to_write,
                to_write == write_count(old(b)@, bytes@.len() as int),
                to_write <= bytes@.len(),
                old(b)@.wp + to_write <= usize::MAX,
                old(b)@.wp - old(b)@.rp + to_write <= old(b)@.capacity,
                b@.capacity == old(b)@.capacity,
                b@.rp == old(b)@.rp,
                b@.wp == old(b)@.wp,
                b@.cp == old(b)@.cp,
                b@.hwm == old(b)@.hwm,
                b@.stored.len() == old(b)@.stored.len(),
                forall|o: int|
                    old(b)@.wp <= o < old(b)@.wp + i ==> #[trigger] byte_at(b@, o) == bytes@[o
                        - old(b)@.wp],
                forall|o: int|
                    old(b)@.rp <= o < old(b)@.wp ==> #[trigger] byte_at(b@, o) == byte_at(
                        old(b)@,
                        o,
                    ),
            decreases to_write - i,
        {
            let ghost pre = b@;
            let idx = (b.wp + i) % b.capacity;
            b.storage[idx] = bytes[i];
            proof {
                let v0 = old(b)@;
                let c = v0.capacity as int;
                assert(b@.stored == pre.stored.update(idx as int, bytes@[i as int]));
                assert(idx as int == (v0.wp + i) % c);
                assert forall|o: int| v0.wp <= o < v0.wp + i + 1 implies #[trigger] byte_at(b@, o)
                    == bytes@[o - v0.wp] by {
                    if o < v0.wp + i {
                        lemma_mod_ne(o, v0.wp + i, c);
                        assert(byte_at(b@, o) == byte_at(pre, o));
                    } else {
                        assert(o % c == idx as int);
                    }
                }
                assert forall|o: int| v0.rp <= o < v0.wp implies #[trigger] byte_at(b@, o)
                    == byte_at(v0, o) by {
                    lemma_mod_ne(o, v0.wp + i, c);
                    assert(byte_at(b@, o) == byte_at(pre, o));
                }
            }
            i = i + 1;
        }
        let ghost filled = b@;
        b.wp = b.wp + to_write;
        proof {
            let v0 = old(b)@;
            let n = to_write as int;
            let sz = size_of(v0);
            assert forall|j: int| 0 <= j < sz + n implies window(b@)[j] == (window(v0)
                + bytes@.take(n))[j] by {
                let o = v0.rp + j;
                assert(window(b@)[j] == byte_at(b@, o));
                assert(byte_at(b@, o) == byte_at(filled, o));
                if j < sz {
                    assert(byte_at(filled, o) == byte_at(v0, o));
                    assert(window(v0)[j] == byte_at(v0, o));
                } else {
                    assert(byte_at(filled, o) == bytes@[o - v0.wp]);
                }
            }
            assert(window(b@) =~= window(v0) + bytes@.take(n));
        }
        to_write
    }
}

impl Consumer {
    /// The next offset a destructive read would consume from.
    pub fn next(&self, b: &CircularBuffer) -> (r: usize)
        requires
            b.wf(),
        ensures
            r == b@.rp,
    {
        b.rp
    }

    /// Copies bytes out of the buffer without consuming them: a peek.
    /// Valid only when `start` lies in the readable window; out of window it
    /// copies nothing, without error.  Repeated peeks at the same offset
    /// return identical bytes, since the producer can never overwrite the
    /// window.  The high-water mark is raised to the end of the copied
    /// range.
    pub fn copy_data(&self, b: &mut CircularBuffer, start: usize, dest: &mut Vec<u8>) -> (n:
        usize)
        requires
            old(b).wf(),
        ensures
            final(b).wf(),
            n == copy_count(old(b)@, start as int, old(dest)@.len() as int),
            final(b)@ == (BufferView {
                hwm: hwm_after_copy(old(b)@, start as int, old(dest)@.len() as int),
                ..old(b)@
            }),
            final(dest)@.len() == old(dest)@.len(),
            forall|i: int|
                0 <= i < n ==> final(dest)@[i] == byte_at(old(b)@, start + i),
            forall|i: int| n <= i < old(dest)@.len() ==> final(dest)@[i] == old(dest)@[i],
    {
        // an offset older than the storage still holds would also be out of
        // window, but such an offset is already below the read offset, since
        // unread data never exceeds the capacity
        if start < b.rp || start > b.wp {
            return 0;
        }
        let remaining = b.wp - start;
        let len = dest.len();
        let to_read = if remaining <= len {
            remaining
        } else {
            len
        };
        let mut i: usize = 0;
        while i < to_read
            invariant
                old(b).wf(),
                b == old(b),
                i <= to_read,
                old(b)@.rp <= start <= old(b)@.wp,
                start + to_read <= old(b)@.wp,
                to_read <= dest@.len(),
                dest@.len() == old(dest)@.len(),
                forall|j: int| 0 <= j < i ==> dest@[j] == byte_at(old(b)@, start + j),
                forall|j: int| i <= j < dest@.len() ==> dest@[j] == old(dest)@[j],
            decreases to_read - i,
        {
            let idx = (start + i) % b.capacity;
            let byte = b.storage[idx];
            dest[i] = byte;
            i = i + 1;
        }
        let end = start + to_read;
        if end > b.hwm {
            b.hwm = end;
        }
        to_read
    }

    /// The highest logical offset ever delivered to the consumer, whether
    /// by a destructive read or by a peek.
    pub fn highest_read(&self, b: &CircularBuffer) -> (r: usize)
        requires
            b.wf(),
        ensures
            r == b@.hwm,
    {
        b.hwm
    }

    /// Advances the read offset by `count` bytes, but never past the write
    /// offset, and returns how far it actually moved.  Used after
    /// out-of-band consumption to commit the read position, so it also
    /// commits delivery: the high-water mark never falls behind the new
    /// read offset.
    pub fn advance(&self, b: &mut CircularBuffer, count: usize) -> (n: usize)
        requires
            old(b).wf(),
        ensures
            final(b).wf(),
            n == advance_count(old(b)@, count as int),
            final(b)@ == (BufferView {
                rp: (old(b)@.rp + n) as nat,
                hwm: hwm_after_advance(old(b)@, old(b)@.rp + n),
                ..old(b)@
            }),
    {
        let unread = b.wp - b.rp;
        let step = if count <= unread {
            count
        } else {
            unread
        };
        b.rp = b.rp + step;
        if b.rp > b.hwm {
            b.hwm = b.rp;
        }
        step
    }

    /// Advances the read offset to the absolute offset `end`, clamped
    /// between the current read offset and the write offset, and returns
    /// how far it moved: a no-op for a target at or below the read offset.
    /// Like `advance`, it commits delivery up to the new read offset.
    pub fn advance_to(&self, b: &mut CircularBuffer, end: usize) -> (n: usize)
        requires
            old(b).wf(),
        ensures
            final(b).wf(),
            n == advance_to_target(old(b)@, end as int) - old(b)@.rp,
            final(b)@ == (BufferView {
                rp: advance_to_target(old(b)@, end as int) as nat,
                hwm: hwm_after_advance(old(b)@, advance_to_target(old(b)@, end as int)),
                ..old(b)@
            }),
    {
        let prev = b.rp;
        let target = if end <= prev {
            prev
        } else if end >= b.wp {
            b.wp
        } else {
            end
        };
        b.rp = target;
        if b.rp > b.hwm {
            b.hwm = b.rp;
        }
        target - prev
    }

    /// The composed destructive read: copies bytes from the read offset as
    /// a peek would, then commits the read position past them.  Once the
    /// stream is closed and drained it returns zero forever.
    pub fn read(&self, b: &mut CircularBuffer, dest: &mut Vec<u8>) -> (n: usize)
        requires
            old(b).wf(),
        ensures
            final(b).wf(),
            n == read_count(old(b)@, old(dest)@.len() as int),
            final(b)@ == (BufferView {
                rp: (old(b)@.rp + n) as nat,
                hwm: hwm_after_copy(old(b)@, old(b)@.rp as int, old(dest)@.len() as int),
                ..old(b)@
            }),
            final(dest)@.len() == old(dest)@.len(),
            forall|i: int| 0 <= i < n ==> final(dest)@[i] == window(old(b)@)[i],
            forall|i: int| n <= i < old(dest)@.len() ==> final(dest)@[i] == old(dest)@[i],
            window(final(b)@) == window(old(b)@).skip(n as int),
    {
        let start = b.rp;
        let nread = self.copy_data(b, start, dest);
        b.rp = b.rp + nread;
        proof {
            let v0 = old(b)@;
            let n = nread as int;
            assert forall|i: int| 0 <= i < n implies final(dest)@[i] == window(v0)[i] by {
                assert(window(v0)[i] == byte_at(v0, v0.rp + i));
            }
            assert forall|j: int| 0 <= j < size_of(v0) - n implies window(b@)[j] == window(
                v0,
            ).skip(n)[j] by {
                assert(window(b@)[j] == byte_at(b@, v0.rp + n + j));
                assert(window(v0)[n + j] == byte_at(v0, v0.rp + n + j));
            }
            assert(window(b@) =~= window(v0).skip(n));
        }
        nread
    }
}

/// The read-only query surface shared by both roles, so producer and
/// consumer expose identical semantics for size, capacity, fullness and
/// closed-state.
pub trait CircularBufferUser {
    /// Which offset this role's `next` reports: the write offset for a
    /// producer, the read offset for a consumer.
    spec fn next_spec(&self, b: &CircularBuffer) -> nat;

    /// The role's own bookkeeping offset.
    fn next(&self, b: &CircularBuffer) -> (r: usize)
        requires
            b.wf(),
        ensures
            r == self.next_spec(b),
    ;

    /// The number of unread bytes.
    fn size(&self, b: &CircularBuffer) -> (r: usize)
        requires
            b.wf(),
        ensures
            r == size_of(b@),
    ;

    /// Whether no unread bytes remain.
    fn is_empty(&self, b: &CircularBuffer) -> (r: bool)
        requires
            b.wf(),
        ensures
            r == (size_of(b@) == 0),
    ;

    /// Whether no further bytes can be written.
    fn is_full(&self, b: &CircularBuffer) -> (r: bool)
        requires
            b.wf(),
        ensures
            r == (available_of(b@) == 0),
    ;

    /// Whether the stream has been closed.
    fn closed(&self, b: &CircularBuffer) -> (r: bool)
        requires
            b.wf(),
        ensures
            r == is_closed(b@),
    ;

    /// The capacity the buffer was rounded up to at creation.
    fn max_capacity(&self, b: &CircularBuffer) -> (r: usize)
        requires
            b.wf(),
        ensures
            r == b@.capacity,
    ;

    /// How many further bytes may be written: zero once closed, the
    /// unoccupied part of the capacity otherwise.
    fn available_capacity(&self, b: &CircularBuffer) -> (r: usize)
        requires
            b.wf(),
        ensures
            r == available_of(b@),
    ;
}

impl CircularBufferUser for Producer {
    open spec fn next_spec(&self, b: &CircularBuffer) -> nat {
        b@.wp
    }

    fn next(&self, b: &CircularBuffer) -> usize {
        b.wp
    }

    fn size(&self, b: &CircularBuffer) -> usize {
        b.wp - b.rp
    }

    fn is_empty(&self, b: &CircularBuffer) -> bool {
        b.wp == b.rp
    }

    fn is_full(&self, b: &CircularBuffer) -> bool {
        self.available_capacity(b) == 0
    }

    fn closed(&self, b: &CircularBuffer) -> bool {
        b.cp != 0
    }

    fn max_capacity(&self, b: &CircularBuffer) -> usize {
        b.capacity
    }

    fn available_capacity(&self, b: &CircularBuffer) -> usize {
        if b.cp != 0 {
            0
        } else {
            b.capacity - (b.wp - b.rp)
        }
    }
}

impl CircularBufferUser for Consumer {
    open spec fn next_spec(&self, b: &CircularBuffer) -> nat {
        b@.rp
    }

    fn next(&self, b: &CircularBuffer) -> usize {
        b.rp
    }

    fn size(&self, b: &CircularBuffer) -> usize {
        b.wp - b.rp
    }

    fn is_empty(&self, b: &CircularBuffer) -> bool {
        b.wp == b.rp
    }

    fn is_full(&self, b: &CircularBuffer) -> bool {
        self.available_capacity(b) == 0
    }

    fn closed(&self, b: &CircularBuffer) -> bool {
        b.cp != 0
    }

    fn max_capacity(&self, b: &CircularBuffer) -> usize {
        b.capacity
    }

    fn available_capacity(&self, b: &CircularBuffer) -> usize {
        if b.cp != 0 {
            0
        } else {
            b.capacity - (b.wp - b.rp)
        }
    }
}

} // verus!
