//! The sample ring between the audio decoder and the output device.
//!
//! A sample is held as its four bytes.

use ringbuf::traits::{Consumer, Observer, Producer};
use ringbuf::HeapRb;
use vstd::prelude::*;
use vstd::slice::slice_subrange;

verus! {

/// A ring of samples: what goes in first comes out first.
#[verifier::external_body]
pub struct SampleRing {
    inner: HeapRb<[u8; 4]>,
}

/// The samples in a ring, the oldest first.
pub uninterp spec fn contents(ring: SampleRing) -> Seq<[u8; 4]>;

/// How many samples a ring has room for in all, with which it was made.
pub uninterp spec fn capacity_of(ring: SampleRing) -> nat;

/// `ringbuf::HeapRb::new`: an empty ring for `capacity` samples. The call panics for a
/// capacity of zero and for one whose bytes exceed what can be allocated.
#[verifier::external_body]
fn new_ring(capacity: usize) -> (ring: SampleRing)
    requires
        0 < capacity,
        capacity * 4 <= isize::MAX,
    ensures
        contents(ring) == Seq::<[u8; 4]>::empty(),
        capacity_of(ring) == capacity,
{
    SampleRing { inner: HeapRb::new(capacity) }
}

/// `ringbuf`'s `Producer::push_slice` on the whole ring: puts as many of the first
/// `samples` behind the contents as there is room for, and returns their number.
#[verifier::external_body]
fn push_slice(ring: &mut SampleRing, samples: &[[u8; 4]]) -> (count: usize)
    ensures
        count <= samples@.len(),
        count == fitting(samples@.len(), contents(*old(ring)).len(), capacity_of(*old(ring))),
        contents(*final(ring)) == contents(*old(ring)) + samples@.take(count as int),
        contents(*final(ring)).len() <= capacity_of(*final(ring)),
        capacity_of(*final(ring)) == capacity_of(*old(ring)),
{
    ring.inner.push_slice(samples)
}

/// `ringbuf`'s `Observer::occupied_len` on the whole ring: how many samples are in it.
#[verifier::external_body]
fn occupied_len(ring: &SampleRing) -> (count: usize)
    ensures
        count == contents(*ring).len(),
{
    ring.inner.occupied_len()
}

/// `ringbuf`'s `Consumer::pop_slice` on the whole ring: takes as many of the oldest
/// samples out as `out` has room for, puts them into the first places of `out`, leaves
/// the others as they were, and returns the number of samples taken.
#[verifier::external_body]
fn pop_slice(ring: &mut SampleRing, out: &mut Vec<[u8; 4]>) -> (count: usize)
    ensures
        count == taken(contents(*old(ring)), old(out)@.len()).len(),
        final(out)@ == taken(contents(*old(ring)), old(out)@.len()) + old(out)@.skip(count as int),
        contents(*final(ring)) == contents(*old(ring)).skip(count as int),
        capacity_of(*final(ring)) == capacity_of(*old(ring)),
{
    ring.inner.pop_slice(out)
}

/// `ringbuf`'s `Consumer::clear` on the whole ring: throws its contents away.
#[verifier::external_body]
fn clear(ring: &mut SampleRing)
    ensures
        contents(*final(ring)) == Seq::<[u8; 4]>::empty(),
        capacity_of(*final(ring)) == capacity_of(*old(ring)),
{
    ring.inner.clear();
}

/// How many of `count` samples fit behind `occupied` others.
pub open spec fn fitting(count: nat, occupied: nat, capacity: nat) -> nat {
    if count <= capacity - occupied {
        count
    } else {
        (capacity - occupied) as nat
    }
}

/// The oldest samples, at most `count`.
pub open spec fn taken(samples: Seq<[u8; 4]>, count: nat) -> Seq<[u8; 4]> {
    if samples.len() <= count {
        samples
    } else {
        samples.take(count as int)
    }
}

/// A block of `len` samples: those taken from a ring, and silence.
pub open spec fn block(samples: Seq<[u8; 4]>, len: nat, silence: [u8; 4]) -> Seq<[u8; 4]> {
    let sound = taken(samples, len);
    sound + Seq::new((len - sound.len()) as nat, |i: int| silence)
}

/// How many samples the ring of a device holds: two seconds of them.
pub open spec fn ring_samples(sample_rate: u32, channels: u32) -> int {
    sample_rate * channels * 2
}

/// What a ring for `capacity` samples holds once as many of `samples` as fit were put into
/// it, from `offset` on, and the offset of the first one that is left.
pub open spec fn pushed(
    held: Seq<[u8; 4]>,
    capacity: nat,
    samples: Seq<[u8; 4]>,
    offset: int,
) -> (Seq<[u8; 4]>, int) {
    let next = offset + fitting((samples.len() - offset) as nat, held.len(), capacity);
    (held + samples.subrange(offset, next), next)
}

/// What is left of the samples in a ring before a block is filled.
pub open spec fn kept(discard: bool, samples: Seq<[u8; 4]>) -> Seq<[u8; 4]> {
    if discard {
        Seq::empty()
    } else {
        samples
    }
}

/// Whether there is nothing left to wait for, where `left` samples are in the ring.
pub open spec fn is_played_out(left: nat, audio_dead: bool) -> bool {
    left == 0 || audio_dead
}

impl SampleRing {
    /// The ring for a device, with room for two seconds.
    pub fn for_device(sample_rate: u32, channels: u32) -> (ring: SampleRing)
        requires
            0 < ring_samples(sample_rate, channels) <= u32::MAX,
            ring_samples(sample_rate, channels) * 4 <= isize::MAX,
        ensures
            contents(ring) == Seq::<[u8; 4]>::empty(),
            capacity_of(ring) == ring_samples(sample_rate, channels),
    {
        assert(sample_rate * channels <= u32::MAX) by (nonlinear_arith)
            requires
                sample_rate * channels * 2 <= u32::MAX,
                sample_rate >= 0,
                channels >= 0,
        ;
        let capacity: u32 = sample_rate * channels * 2;
        new_ring(capacity as usize)
    }

    /// Puts as many samples from `offset` on into the ring as there is room for.
    /// Returns the offset of the first one that is left.
    pub fn push_from(&mut self, samples: &Vec<[u8; 4]>, offset: usize) -> (next: usize)
        requires
            offset <= samples@.len(),
        ensures
            offset <= next <= samples@.len(),
            next - offset == fitting(
                (samples@.len() - offset) as nat,
                contents(*old(self)).len(),
                capacity_of(*old(self)),
            ),
            contents(*final(self)) == contents(*old(self)) + samples@.subrange(
                offset as int,
                next as int,
            ),
            contents(*final(self)).len() <= capacity_of(*final(self)),
            capacity_of(*final(self)) == capacity_of(*old(self)),
            (contents(*final(self)), next as int) == pushed(
                contents(*old(self)),
                capacity_of(*old(self)),
                samples@,
                offset as int,
            ),
    {
        let rest = slice_subrange(samples.as_slice(), offset, samples.len());
        let count: usize = push_slice(self, rest);
        assert(rest@.take(count as int) =~= samples@.subrange(offset as int, offset + count));
        offset + count
    }

    /// Fills one block for the device: throws the ring's contents away first where
    /// `discard` says so, takes what is in the ring, and fills the rest of the block
    /// with `silence`. Returns how many samples came from the ring.
    pub fn fill_block(
        &mut self,
        discard: bool,
        out: &mut Vec<[u8; 4]>,
        silence: [u8; 4],
    ) -> (filled: usize)
        ensures
            ({
                let held = if discard {
                    Seq::<[u8; 4]>::empty()
                } else {
                    contents(*old(self))
                };
                &&& filled == taken(held, old(out)@.len()).len()
                &&& final(out)@ == block(held, old(out)@.len(), silence)
                &&& contents(*final(self)) == held.skip(filled as int)
            }),
            ({
                let held = kept(discard, contents(*old(self)));
                &&& filled == taken(held, old(out)@.len()).len()
                &&& final(out)@ == block(held, old(out)@.len(), silence)
                &&& contents(*final(self)) == held.skip(filled as int)
            }),
            capacity_of(*final(self)) == capacity_of(*old(self)),
    {
        if discard {
            clear(self);
        }
        let ghost held = contents(*self);
        let ghost blank = out@;
        let filled: usize = pop_slice(self, out);
        let len: usize = out.len();
        let ghost sound = taken(held, len as nat);
        let mut i: usize = filled;
        while i < len
            invariant
                filled <= i <= len,
                out@.len() == len,
                sound.len() == filled,
                forall|j: int| 0 <= j < filled ==> out@[j] == sound[j],
                forall|j: int| filled <= j < i ==> out@[j] == silence,
            decreases len - i,
        {
            out.set(i, silence);
            i = i + 1;
        }
        assert(out@ =~= block(held, blank.len(), silence));
        filled
    }

    /// Whether there is nothing left to wait for: the ring is empty, or the device is
    /// dead and will not empty it.
    pub fn played_out(&self, audio_dead: bool) -> (done: bool)
        ensures
            done == (contents(*self).len() == 0 || audio_dead),
            done == is_played_out(contents(*self).len(), audio_dead),
    {
        occupied_len(self) == 0 || audio_dead
    }
}

/// What goes in comes out, in the same order: after a push that fits, a block of just
/// that length is what the ring held before, followed by what was pushed.
pub proof fn law_first_in_first_out(
    held: Seq<[u8; 4]>,
    samples: Seq<[u8; 4]>,
    silence: [u8; 4],
)
    ensures
        block(held + samples, held.len() + samples.len(), silence) == held + samples,
{
    assert(block(held + samples, held.len() + samples.len(), silence) =~= held + samples);
}

/// Blocks follow each other without a gap: two blocks hold the samples that one block of
/// their common length would, as long as the ring does not run dry in the first.
pub proof fn law_blocks_join(held: Seq<[u8; 4]>, first: nat, second: nat, silence: [u8; 4])
    requires
        first <= held.len(),
    ensures
        block(held, first, silence) + block(held.skip(first as int), second, silence) == block(
            held,
            first + second,
            silence,
        ),
{
    assert(block(held, first, silence) + block(held.skip(first as int), second, silence) =~= block(
        held,
        first + second,
        silence,
    ));
}

/// Samples that are pushed in two goes arrive as if they were pushed in one.
pub proof fn law_pushes_join(
    held: Seq<[u8; 4]>,
    samples: Seq<[u8; 4]>,
    from: int,
    middle: int,
    to: int,
)
    requires
        0 <= from <= middle <= to <= samples.len(),
    ensures
        held + samples.subrange(from, middle) + samples.subrange(middle, to) == held
            + samples.subrange(from, to),
{
    assert(held + samples.subrange(from, middle) + samples.subrange(middle, to) =~= held
        + samples.subrange(from, to));
}

/// Nothing from before a discard is heard: the block after it is silent throughout.
pub proof fn law_discard_is_silent(len: nat, silence: [u8; 4], i: int)
    requires
        0 <= i < len,
    ensures
        block(Seq::<[u8; 4]>::empty(), len, silence)[i] == silence,
{
}

/// As many samples go in as there is room for: never more than there are or fit, and fewer
/// than there are only if the ring is then full.
pub proof fn law_ring_is_filled(count: nat, occupied: nat, capacity: nat)
    requires
        occupied <= capacity,
    ensures
        fitting(count, occupied, capacity) <= count,
        occupied + fitting(count, occupied, capacity) <= capacity,
        fitting(count, occupied, capacity) < count ==> occupied + fitting(count, occupied, capacity)
            == capacity,
{
}

/// A block has the length asked for; it holds the oldest samples, each at its place, and
/// silence behind them.
pub proof fn law_block_holds_the_oldest(
    samples: Seq<[u8; 4]>,
    len: nat,
    silence: [u8; 4],
    i: int,
)
    requires
        0 <= i < len,
    ensures
        block(samples, len, silence).len() == len,
        i < samples.len() ==> block(samples, len, silence)[i] == samples[i],
        i >= samples.len() ==> block(samples, len, silence)[i] == silence,
        taken(samples, len).len() == (if samples.len() <= len {
            samples.len()
        } else {
            len
        }),
        i < samples.len() ==> taken(samples, len)[i] == samples[i],
{
}

/// The ring of a device has room for two seconds of all its channels.
pub proof fn law_ring_holds_two_seconds(sample_rate: u32, channels: u32)
    ensures
        ring_samples(sample_rate, channels) == 2 * (sample_rate * channels),
{
}

/// A discard leaves no sample in the ring, and without one none is lost.
pub proof fn law_only_a_discard_loses_samples(discard: bool, samples: Seq<[u8; 4]>)
    ensures
        discard ==> kept(discard, samples).len() == 0,
        !discard ==> kept(discard, samples) == samples,
{
}

/// While the device works, every sample in the ring is waited for.
pub proof fn law_samples_are_waited_for(left: nat, audio_dead: bool)
    ensures
        !audio_dead ==> (is_played_out(left, audio_dead) <==> left == 0),
        audio_dead ==> is_played_out(left, audio_dead),
{
}

/// Pushing keeps what the ring held, puts the next samples behind it in their order, and
/// leaves the others for later; it stops only at the end of the samples or of the room.
pub proof fn law_push_keeps_the_order(
    held: Seq<[u8; 4]>,
    capacity: nat,
    samples: Seq<[u8; 4]>,
    offset: int,
    i: int,
)
    requires
        held.len() <= capacity,
        0 <= offset <= samples.len(),
    ensures
        ({
            let (after, next) = pushed(held, capacity, samples, offset);
            &&& offset <= next <= samples.len()
            &&& after.len() == held.len() + (next - offset)
            &&& after.len() <= capacity
            &&& next < samples.len() ==> after.len() == capacity
            &&& 0 <= i < held.len() ==> after[i] == held[i]
            &&& held.len() <= i < after.len() ==> after[i] == samples[offset + i - held.len()]
        }),
{
}

} // verus!
