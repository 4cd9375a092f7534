//! The INCR chunk schedule.
//!
//! An owner delivering an oversized payload writes it as a run of
//! property updates of at most [`INCR_CHUNK_SIZE`] bytes each, ending
//! with one zero-length write — the explicit end-of-transfer marker.
//! This module states that schedule mathematically and proves the laws
//! the two state machines rely on: the chunks reassemble to exactly the
//! payload, their number is `ceil(len / INCR_CHUNK_SIZE)` data chunks
//! plus the terminator, and only the final chunk is empty.

use vstd::prelude::*;
use crate::INCR_CHUNK_SIZE;

verus! {

/// Length of the chunk written when `pos` bytes of a `total`-byte
/// payload have been sent already: a full chunk while one remains, the
/// remainder otherwise, zero exactly at the end of the payload.
pub open spec fn chunk_len(total: nat, pos: nat) -> nat
    recommends
        pos <= total,
{
    if pos + INCR_CHUNK_SIZE <= total {
        INCR_CHUNK_SIZE as nat
    } else {
        (total - pos) as nat
    }
}

/// The cursor after one more chunk is written.
pub open spec fn next_pos(total: nat, pos: nat) -> nat
    recommends
        pos <= total,
{
    pos + chunk_len(total, pos)
}

/// The chunk written at cursor `pos` of payload `v`.
pub open spec fn chunk_at(v: Seq<u8>, pos: nat) -> Seq<u8>
    recommends
        pos <= v.len(),
{
    v.subrange(pos as int, next_pos(v.len(), pos) as int)
}

/// The whole run of chunks an owner writes from cursor `pos` on,
/// terminator included.
pub open spec fn chunks_from(v: Seq<u8>, pos: nat) -> Seq<Seq<u8>>
    recommends
        pos <= v.len(),
    decreases v.len() - pos,
{
    if pos >= v.len() {
        seq![Seq::<u8>::empty()]
    } else {
        seq![chunk_at(v, pos)] + chunks_from(v, next_pos(v.len(), pos))
    }
}

/// What a requestor accumulates from a run of chunks, appending each in
/// turn.
pub open spec fn assembled(chunks: Seq<Seq<u8>>) -> Seq<u8>
    decreases chunks.len(),
{
    if chunks.len() == 0 {
        Seq::<u8>::empty()
    } else {
        chunks.first() + assembled(chunks.drop_first())
    }
}

/// How many chunks the schedule has: one per `INCR_CHUNK_SIZE` bytes,
/// rounded up, plus the zero-length terminator.
pub open spec fn chunk_count(total: nat) -> nat {
    ((total + INCR_CHUNK_SIZE - 1) / (INCR_CHUNK_SIZE as int) + 1) as nat
}

/// Law: a transfer's cursor is monotonically non-decreasing, never runs
/// past the payload, and stands still exactly at its end — completion is
/// exactly the zero-length chunk.
pub proof fn lemma_cursor_monotone(total: nat, pos: nat)
    requires
        pos <= total,
    ensures
        pos <= next_pos(total, pos) <= total,
        chunk_len(total, pos) == 0 <==> pos == total,
{
}

/// The chunk schedule from any cursor reassembles to the rest of the
/// payload, has `chunk_count` of the remainder many chunks, and only its
/// final chunk — the terminator — is empty.
pub proof fn lemma_chunks_from(v: Seq<u8>, pos: nat)
    requires
        pos <= v.len(),
    ensures
        assembled(chunks_from(v, pos)) == v.skip(pos as int),
        chunks_from(v, pos).len() == chunk_count((v.len() - pos) as nat),
        chunks_from(v, pos).last() == Seq::<u8>::empty(),
        forall|i: int|
            0 <= i < chunks_from(v, pos).len() - 1 ==> #[trigger] chunks_from(v, pos)[i].len() > 0,
    decreases v.len() - pos,
{
    if pos >= v.len() {
        let cs = chunks_from(v, pos);
        assert(cs.drop_first() =~= Seq::<Seq<u8>>::empty());
        assert(assembled(cs.drop_first()) == Seq::<u8>::empty());
        assert(assembled(cs) =~= v.skip(pos as int));
    } else {
        let cl = chunk_len(v.len(), pos);
        let np = next_pos(v.len(), pos);
        lemma_chunks_from(v, np);
        assert(chunks_from(v, pos).drop_first() =~= chunks_from(v, np));
        assert(chunks_from(v, pos).first() == chunk_at(v, pos));
        assert(chunk_at(v, pos) + v.skip(np as int) =~= v.skip(pos as int));
        let n = v.len() - pos;
        let k = INCR_CHUNK_SIZE as int;
        if pos + k <= v.len() {
            assert((n + k - 1) / k == ((n - k) + k - 1) / k + 1) by (nonlinear_arith)
                requires
                    n >= k > 0,
            ;
        } else {
            assert((n + k - 1) / k == 1) by (nonlinear_arith)
                requires
                    0 < n <= k,
            ;
        }
    }
}

/// Law: an INCR transfer is faithful.  Starting from cursor zero the
/// owner writes `ceil(len / INCR_CHUNK_SIZE)` non-empty chunks and one
/// zero-length terminator; their concatenation, in order, is exactly the
/// payload — so a requestor that appends every chunk until the empty one
/// reassembles exactly the stored bytes.
pub proof fn lemma_incr_transfer_faithful(v: Seq<u8>)
    ensures
        assembled(chunks_from(v, 0)) == v,
        chunks_from(v, 0).len() == chunk_count(v.len()),
        chunks_from(v, 0).last() == Seq::<u8>::empty(),
        forall|i: int|
            0 <= i < chunks_from(v, 0).len() - 1 ==> #[trigger] chunks_from(v, 0)[i].len() > 0,
{
    lemma_chunks_from(v, 0);
    assert(v.skip(0) =~= v);
}

} // verus!
