//! The buffer's laws: properties that relate several operations, stated
//! over the ghost model and proved once for every input.  Each law speaks of
//! the same spec functions that the operations' own contracts use.

use vstd::prelude::*;
use vstd::arithmetic::power2::is_pow2;

use crate::model::{
    advance_to_target, available_of, bytes_at, byte_at, copy_count, cp_after_close, fresh_buffer,
    hwm_after_advance, hwm_after_copy, inv, is_closed, read_count, size_of, window, write_count,
    BufferView,
};

verus! {

/// Of two distinct powers of two, the smaller is at most half the larger.
proof fn lemma_pow2_double_le(a: int, b: int)
    requires
        is_pow2(a),
        is_pow2(b),
        a < b,
    ensures
        2 * a <= b,
    decreases b,
{
    reveal(vstd::arithmetic::power2::is_pow2);
    if a == 1 {
        assert(b == 2 * (b / 2));
    } else {
        assert(a == 2 * (a / 2));
        assert(b == 2 * (b / 2));
        lemma_pow2_double_le(a / 2, b / 2);
    }
}

/// The capacity a buffer is created with is the smallest power of two that
/// holds the requested size: every power of two at least as large as the
/// request is at least the capacity.
pub proof fn lemma_capacity_minimal(v: BufferView, size: int, calib: int, q: int)
    requires
        fresh_buffer(v, size, calib),
        is_pow2(q),
        q >= size,
    ensures
        v.capacity <= q,
{
    let c = v.capacity as int;
    if q < c {
        reveal(vstd::arithmetic::power2::is_pow2);
        assert(q >= 1);
        lemma_pow2_double_le(q, c);
    }
}

/// Before closing, the unread size and the available capacity always
/// partition the full capacity, at every observation point.
pub proof fn lemma_size_available_partition(v: BufferView)
    requires
        inv(v),
        !is_closed(v),
    ensures
        size_of(v) + available_of(v) == v.capacity,
{
}

/// Round-trip: the bytes a write stores are retrievable, byte-identical, at
/// the logical offsets where they were written.  `v` is the buffer before
/// the write and `w` any buffer satisfying the write's contract; the stored
/// prefix of the input shows up unchanged both at its absolute offsets and
/// at the end of the unread window, so any later peek or read covering those
/// offsets, with no intervening state change, returns exactly those bytes.
pub proof fn lemma_round_trip(v: BufferView, w: BufferView, bytes: Seq<u8>, n: int)
    requires
        inv(v),
        inv(w),
        n == write_count(v, bytes.len() as int),
        w.capacity == v.capacity,
        w.rp == v.rp,
        w.wp == v.wp + n,
        window(w) == window(v) + bytes.take(n),
    ensures
        bytes_at(w, v.wp as int, n) == bytes.take(n),
        window(w).skip(size_of(v)) == bytes.take(n),
{
    let sz = size_of(v);
    assert forall|i: int| 0 <= i < n implies bytes_at(w, v.wp as int, n)[i] == bytes.take(n)[i] by {
        assert(window(w)[sz + i] == byte_at(w, v.rp + (sz + i)));
        assert(v.rp + (sz + i) == v.wp + i);
    }
    assert(bytes_at(w, v.wp as int, n) =~= bytes.take(n));
    assert(window(w).skip(sz) =~= bytes.take(n));
}

/// Idempotence of peeking: a peek's only effect is on the high-water mark,
/// and a second peek at the same offset, with no intervening write, copies
/// the same count and identical bytes.
pub proof fn lemma_copy_idempotent(v: BufferView, start: int, len: int)
    requires
        inv(v),
        len >= 0,
    ensures
        ({
            let w = BufferView { hwm: hwm_after_copy(v, start, len), ..v };
            &&& inv(w)
            &&& copy_count(w, start, len) == copy_count(v, start, len)
            &&& bytes_at(w, start, copy_count(v, start, len)) == bytes_at(
                v,
                start,
                copy_count(v, start, len),
            )
            &&& hwm_after_copy(w, start, len) == w.hwm
        }),
{
    let w = BufferView { hwm: hwm_after_copy(v, start, len), ..v };
    assert(bytes_at(w, start, copy_count(v, start, len)) =~= bytes_at(
        v,
        start,
        copy_count(v, start, len),
    ));
}

/// Saturation: a write onto a full buffer stores nothing, and a read or a
/// peek from an empty buffer copies nothing.  That no operation ever drives
/// the read offset past the write offset, or lets unread data exceed the
/// capacity, is the invariant that every operation's contract preserves.
pub proof fn lemma_saturation(v: BufferView, len: int, start: int)
    requires
        inv(v),
        len >= 0,
    ensures
        available_of(v) == 0 ==> write_count(v, len) == 0,
        size_of(v) == 0 ==> read_count(v, len) == 0,
        size_of(v) == 0 ==> copy_count(v, start, len) == 0,
{
}

/// Close semantics: closing seals the stream.  Afterwards the available
/// capacity is zero and every further write stores nothing, while the bytes
/// unread at close time stay readable until drained; once drained, reads
/// return zero forever.  (A stream whose write offset is still zero cannot
/// record its closing, so the law asks for a nonzero one.)
pub proof fn lemma_close(v: BufferView, len: int)
    requires
        inv(v),
        len >= 0,
        v.wp != 0,
    ensures
        ({
            let w = BufferView { cp: cp_after_close(v), ..v };
            &&& inv(w)
            &&& is_closed(w)
            &&& available_of(w) == 0
            &&& write_count(w, len) == 0
            &&& window(w) == window(v)
            &&& size_of(w) == size_of(v)
            &&& (size_of(w) == 0 ==> read_count(w, len) == 0)
        }),
{
    let w = BufferView { cp: cp_after_close(v), ..v };
    assert(window(w) =~= window(v));
}

/// `advance_to` is monotone and idempotent: a target at or below the read
/// offset is a no-op, and once a target has taken effect, repeating it (or
/// any smaller target) advances nothing further.
pub proof fn lemma_advance_to_monotone(v: BufferView, end: int, end2: int)
    requires
        inv(v),
        end2 <= end,
    ensures
        ({
            let t = advance_to_target(v, end);
            let w = BufferView { rp: t as nat, hwm: hwm_after_advance(v, t), ..v };
            &&& inv(w)
            &&& (end <= v.rp ==> w == v && t == v.rp)
            &&& advance_to_target(w, end2) == w.rp
        }),
{
}

} // verus!
