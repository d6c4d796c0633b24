use vstd::prelude::*;

use crate::engine::{Crdt, EngineConfig, OpSet};

verus! {

/// Bidirectional full-snapshot exchange: encode both complete states first,
/// then decode each into the other. This works for any pair of instances,
/// related causal histories or not, at the cost of shipping whole snapshots
/// instead of deltas.
///
/// Convergence: afterwards both instances hold the union of the two operation
/// histories, so they show the same text — however the edits were distributed
/// between them beforehand. Merging two already-converged instances changes
/// neither one.
pub fn merge<C: Crdt>(a: &mut C, b: &mut C)
    ensures
        final(a).state() == old(a).state().union(old(b).state()),
        final(b).state() == old(a).state().union(old(b).state()),
        final(a).state() == final(b).state(),
        C::text_of(final(a).state()) == C::text_of(final(b).state()),
        final(a).config() == old(a).config(),
        final(b).config() == old(b).config(),
        old(a).state() == old(b).state() ==> final(a).state() == old(a).state()
            && final(b).state() == old(b).state(),
{
    let enc_a = a.encode_full();
    let enc_b = b.encode_full();
    let res_a = a.decode_full(&enc_b);
    let res_b = b.decode_full(&enc_a);
    proof {
        assert(res_a is Ok);
        assert(res_b is Ok);
        assert(old(b).state().union(old(a).state()) =~= old(a).state().union(old(b).state()));
        if old(a).state() == old(b).state() {
            assert(old(a).state().union(old(b).state()) =~= old(a).state());
        }
    }
}

/// One direction of a snapshot exchange: take `src`'s full snapshot and decode
/// it into `dst`, merging it with whatever `dst` already holds.
///
/// Round trip: decoding a snapshot into a freshly constructed (empty) instance
/// reproduces the snapshotted document exactly, text included.
pub fn load_snapshot<C: Crdt>(src: &C, dst: &mut C)
    ensures
        final(dst).state() == old(dst).state().union(src.state()),
        final(dst).config() == old(dst).config(),
        old(dst).state() == Set::<int>::empty() ==> final(dst).state() == src.state()
            && C::text_of(final(dst).state()) == C::text_of(src.state()),
{
    let enc = src.encode_full();
    let res = dst.decode_full(&enc);
    proof {
        assert(res is Ok);
        if old(dst).state() == Set::<int>::empty() {
            assert(old(dst).state().union(src.state()) =~= src.state());
        }
    }
}

/// Merging is idempotent on converged instances: when both hold the same
/// operation history `s`, the merged history is `s` again, so the text and
/// the encoded snapshot — hence the measured size — of both instances are
/// exactly what they were before the extra merge.
pub proof fn lemma_merge_idempotent<C: Crdt>(c: EngineConfig, s: OpSet)
    ensures
        s.union(s) == s,
        C::text_of(s.union(s)) == C::text_of(s),
        C::encoding_of(c, s.union(s)) == C::encoding_of(c, s),
{
    assert(s.union(s) =~= s);
}

} // verus!
