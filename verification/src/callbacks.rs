//! The per-block logic of the two real-time callbacks. The capture side
//! pushes every sample of an incoming block into the latency buffer, dropping
//! samples (and reporting overrun) when the consumer has fallen behind by
//! more than the latency window. The playback side fills every slot of an
//! outgoing block from the buffer, substituting silence (and reporting
//! underrun) when the producer has fallen behind. Neither blocks, locks,
//! allocates or panics, and neither cuts a block short.

use crate::buffer::LatencyBuffer;
use crate::buffer::lemma_pop_values_prefix;
use crate::buffer::lemma_push_all_appends;
use crate::buffer::spec_pop_values;
use crate::buffer::spec_push_all;
use vstd::prelude::*;

verus! {

/// How many samples of a block of `incoming` samples fit into a buffer with
/// `queued` of `cap` slots taken: all of them, or exactly the free space.
pub open spec fn spec_accepted(queued: nat, cap: nat, incoming: nat) -> nat
    recommends
        queued <= cap,
{
    if incoming <= cap - queued {
        incoming
    } else {
        (cap - queued) as nat
    }
}

/// How many slots of an outgoing block of `requested` slots a buffer with
/// `queued` samples can serve: all of them, or exactly what is queued.
pub open spec fn spec_served(queued: nat, requested: nat) -> nat {
    if requested <= queued {
        requested
    } else {
        queued
    }
}

/// Capture callback core: attempts to push every sample of `block`, in
/// order. A leading slice as long as the buffer's free space is enqueued;
/// the rest of the block is silently discarded. Returns whether any push
/// failed (the consumer fell behind by more than the latency window), so the
/// caller can emit a non-fatal diagnostic.
pub fn capture_block<T: Copy>(buf: &mut LatencyBuffer<T>, block: &Vec<T>) -> (overran: bool)
    requires
        old(buf).inv(),
    ensures
        final(buf).inv(),
        final(buf).capacity() == old(buf).capacity(),
        final(buf).contents() == old(buf).contents() + block@.take(
            spec_accepted(
                old(buf).contents().len(),
                old(buf).capacity(),
                block@.len(),
            ) as int,
        ),
        overran == (block@.len() > old(buf).capacity() - old(buf).contents().len()),
{
    proof {
        old(buf).lemma_len_bounded();
    }
    let ghost free: nat = (old(buf).capacity() - old(buf).contents().len()) as nat;
    let mut i: usize = 0;
    let mut overran = false;
    while i < block.len()
        invariant
            i <= block@.len(),
            buf.inv(),
            buf.capacity() == old(buf).capacity(),
            free == old(buf).capacity() - old(buf).contents().len(),
            buf.contents() == old(buf).contents() + block@.take(
                spec_accepted(old(buf).contents().len(), old(buf).capacity(), i as nat) as int,
            ),
            overran == (i > free),
        decreases block@.len() - i,
    {
        let ok = buf.push(block[i]);
        if !ok {
            overran = true;
        }
        proof {
            if i < free {
                assert(ok);
                assert(old(buf).contents() + block@.take(i as int).push(block@[i as int])
                    =~= old(buf).contents() + block@.take(i + 1));
            } else {
                assert(buf.contents().len() == old(buf).capacity());
                assert(!ok);
            }
        }
        i += 1;
    }
    overran
}

/// Playback callback core: fills every slot of `out`, oldest queued sample
/// first, writing the silence value `zero` wherever the buffer is already
/// empty. No slot is skipped or delayed. Returns whether any slot underran
/// (the producer fell behind), so the caller can emit a non-fatal diagnostic
/// after the block is filled.
pub fn playback_block<T: Copy>(buf: &mut LatencyBuffer<T>, out: &mut Vec<T>, zero: T) -> (underran:
    bool)
    requires
        old(buf).inv(),
    ensures
        final(buf).inv(),
        final(buf).capacity() == old(buf).capacity(),
        final(out)@.len() == old(out)@.len(),
        final(out)@ == old(buf).contents().take(
            spec_served(old(buf).contents().len(), old(out)@.len()) as int,
        ) + Seq::new(
            (old(out)@.len() - spec_served(old(buf).contents().len(), old(out)@.len())) as nat,
            |i: int| zero,
        ),
        final(buf).contents() == old(buf).contents().skip(
            spec_served(old(buf).contents().len(), old(out)@.len()) as int,
        ),
        underran == (old(out)@.len() > old(buf).contents().len()),
{
    let ghost queued: nat = old(buf).contents().len();
    let mut i: usize = 0;
    let mut underran = false;
    while i < out.len()
        invariant
            i <= out@.len(),
            out@.len() == old(out)@.len(),
            buf.inv(),
            buf.capacity() == old(buf).capacity(),
            queued == old(buf).contents().len(),
            buf.contents() == old(buf).contents().skip(spec_served(queued, i as nat) as int),
            out@ == old(buf).contents().take(spec_served(queued, i as nat) as int) + Seq::new(
                (i - spec_served(queued, i as nat)) as nat,
                |j: int| zero,
            ) + old(out)@.skip(i as int),
            underran == (i > queued),
        decreases out@.len() - i,
    {
        let popped = buf.pop();
        let v = match popped {
            Some(s) => s,
            None => {
                underran = true;
                zero
            },
        };
        out.set(i, v);
        proof {
            let served_now = spec_served(queued, (i + 1) as nat);
            let served_before = spec_served(queued, i as nat);
            if (i as nat) < queued {
                assert(popped == Some(old(buf).contents()[i as int]));
                assert(served_now == served_before + 1);
            } else {
                assert(popped is None);
                assert(served_now == served_before);
            }
            assert(out@ =~= old(buf).contents().take(served_now as int) + Seq::new(
                (i + 1 - served_now) as nat,
                |j: int| zero,
            ) + old(out)@.skip(i + 1));
            assert(buf.contents() =~= old(buf).contents().skip(served_now as int));
        }
        i += 1;
    }
    proof {
        assert(out@ =~= old(buf).contents().take(
            spec_served(queued, out@.len() as nat) as int,
        ) + Seq::new((out@.len() - spec_served(queued, out@.len() as nat)) as nat, |j: int| zero));
    }
    underran
}

/// End to end: a block captured into a buffer with room for it is accepted
/// whole, and playing back everything queued yields the prior contents
/// followed by that block, unchanged and in order.
pub proof fn lemma_capture_then_playback<T>(s: Seq<T>, cap: nat, block: Seq<T>)
    requires
        s.len() + block.len() <= cap,
    ensures
        spec_accepted(s.len(), cap, block.len()) == block.len(),
        spec_pop_values(spec_push_all(s, cap, block), s.len() + block.len()) == s + block,
{
    lemma_push_all_appends(s, cap, block);
    lemma_pop_values_prefix(s + block, s.len() + block.len());
    assert((s + block).take((s.len() + block.len()) as int) =~= s + block);
}

} // verus!
