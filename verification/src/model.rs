//! The mathematical model of the ring buffer: a ghost view of its state,
//! the invariant that every operation preserves, and spec-level descriptions
//! of what each operation returns.

use vstd::prelude::*;
use vstd::arithmetic::power2::is_pow2;

verus! {

/// Ghost abstraction of the shared buffer state.
///
/// `rp`, `wp` and `hwm` are unbounded logical offsets: they are never wrapped,
/// and wrapping is applied only when indexing into `stored`.  `cp` is zero
/// while the stream is open; closing sets it, once, to the write offset at
/// that moment.
pub ghost struct BufferView {
    /// Storage length; a power of two.
    pub capacity: nat,
    /// The bytes currently held, indexed by masked offsets.
    pub stored: Seq<u8>,
    /// Read offset: everything below it has been consumed.
    pub rp: nat,
    /// Write offset: everything below it has been produced.
    pub wp: nat,
    /// Close offset: zero while open, the write offset at closing time after.
    pub cp: nat,
    /// High-water mark: the farthest offset ever delivered to the consumer,
    /// whether by a read, a peek, or a committed advance.
    pub hwm: nat,
}

/// The invariant that holds of the buffer at every externally observable
/// point: the capacity is a power of two, the read offset never passes the
/// write offset, unread data never exceeds the capacity, a closed stream
/// records the write offset at closing, and the high-water mark stays
/// between the read offset and the write offset: delivery is committed at
/// least as far as reads have consumed, and never past what was written.
pub open spec fn inv(v: BufferView) -> bool {
    &&& v.capacity >= 1
    &&& is_pow2(v.capacity as int)
    &&& v.stored.len() == v.capacity
    &&& v.rp <= v.wp
    &&& v.wp - v.rp <= v.capacity
    &&& v.cp != 0 ==> v.cp == v.wp
    &&& v.rp <= v.hwm
    &&& v.hwm <= v.wp
}

/// Whether the stream has been closed.
pub open spec fn is_closed(v: BufferView) -> bool {
    v.cp != 0
}

/// The number of unread bytes.
pub open spec fn size_of(v: BufferView) -> int {
    v.wp - v.rp
}

/// How many further bytes may still be written: none once closed, otherwise
/// whatever part of the capacity is not occupied by unread bytes.
pub open spec fn available_of(v: BufferView) -> int {
    if is_closed(v) {
        0
    } else {
        v.capacity - size_of(v)
    }
}

/// The byte stored for logical offset `off`.
pub open spec fn byte_at(v: BufferView, off: int) -> u8 {
    v.stored[off % v.capacity as int]
}

/// The bytes stored for `count` consecutive logical offsets starting at
/// `start`.
pub open spec fn bytes_at(v: BufferView, start: int, count: int) -> Seq<u8> {
    Seq::new(count as nat, |i: int| byte_at(v, start + i))
}

/// The unread window: the bytes written but not yet consumed, in logical
/// offset order.
pub open spec fn window(v: BufferView) -> Seq<u8> {
    bytes_at(v, v.rp as int, size_of(v))
}

/// How many bytes a write of `len` bytes stores: the whole input, unless
/// the available capacity is smaller.
pub open spec fn write_count(v: BufferView, len: int) -> int {
    if len <= available_of(v) {
        len
    } else {
        available_of(v)
    }
}

/// Whether `start` lies in the window a peek may read from: at or past the
/// read offset, not past the write offset, and not older than what the
/// storage can still hold (the last bound follows from the invariant).
pub open spec fn in_window(v: BufferView, start: int) -> bool {
    &&& v.rp <= start <= v.wp
    &&& v.wp - v.capacity <= start
}

/// How many bytes a peek at `start` into a destination of length `len`
/// copies: zero out of window, otherwise every byte between `start` and the
/// write offset that the destination can hold.
pub open spec fn copy_count(v: BufferView, start: int, len: int) -> int {
    if !in_window(v, start) {
        0
    } else if v.wp - start <= len {
        v.wp - start
    } else {
        len
    }
}

/// How many bytes a destructive read into a destination of length `len`
/// consumes.
pub open spec fn read_count(v: BufferView, len: int) -> int {
    copy_count(v, v.rp as int, len)
}

/// The high-water mark after a peek at `start` into a destination of length
/// `len`: raised to the end of the copied range when the peek was in window,
/// untouched otherwise.
pub open spec fn hwm_after_copy(v: BufferView, start: int, len: int) -> nat {
    if in_window(v, start) {
        let end = start + copy_count(v, start, len);
        if end <= v.hwm {
            v.hwm
        } else {
            end as nat
        }
    } else {
        v.hwm
    }
}

/// The high-water mark after the read offset moved to `new_rp`: advancing
/// commits delivery, so the mark never falls behind the read offset.
pub open spec fn hwm_after_advance(v: BufferView, new_rp: int) -> nat {
    if new_rp <= v.hwm {
        v.hwm
    } else {
        new_rp as nat
    }
}

/// How far a relative advance by `count` actually moves the read offset:
/// never past the write offset.
pub open spec fn advance_count(v: BufferView, count: int) -> int {
    if count <= size_of(v) {
        count
    } else {
        size_of(v)
    }
}

/// The read offset after an absolute advance towards `end`: `end` clamped
/// between the current read offset and the write offset.
pub open spec fn advance_to_target(v: BufferView, end: int) -> int {
    if end <= v.rp {
        v.rp as int
    } else if end >= v.wp {
        v.wp as int
    } else {
        end
    }
}

/// The close offset after a close call: set to the write offset the first
/// time, untouched by every later call.
pub open spec fn cp_after_close(v: BufferView) -> nat {
    if v.cp == 0 {
        v.wp
    } else {
        v.cp
    }
}

/// What a freshly created buffer looks like: the capacity is the smallest
/// power of two that holds `size` bytes, all offsets start at the
/// calibration value, the stream is open and the storage is zero-filled.
pub open spec fn fresh_buffer(v: BufferView, size: int, calib: int) -> bool {
    &&& inv(v)
    &&& size <= v.capacity
    &&& v.capacity == 1 || v.capacity < 2 * size
    &&& v.rp == calib
    &&& v.wp == calib
    &&& v.cp == 0
    &&& v.hwm == calib
    &&& v.stored == Seq::new(v.capacity, |i: int| 0u8)
}

} // verus!
