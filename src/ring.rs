//! The audio output bridge: a fixed-capacity FIFO of sample words between the
//! decode thread, which produces resampled audio, and the output device's
//! callback, which consumes it and must never block.
//!
//! A sample word is the bit pattern of one sample in the output device's
//! format (an `f32` sample is carried as its `to_bits`).
use vstd::prelude::*;
use vstd::slice::slice_subrange;
use ringbuf::traits::{Consumer, Observer, Producer};

verus! {

/// A fixed-capacity ring of sample words, held in ringbuf's heap ring buffer.
#[verifier::external_body]
pub struct SampleRing {
    rb: ringbuf::HeapRb<u32>,
}

/// The sample words in the ring, oldest first.
pub uninterp spec fn ring_contents(r: SampleRing) -> Seq<u32>;

/// The number of sample words the ring was made to hold.
pub uninterp spec fn ring_capacity(r: SampleRing) -> nat;

/// What a ring holds after `src` was offered to it: as much of `src` as
/// fits, appended in order.
pub open spec fn pushed_contents(old: Seq<u32>, cap: nat, src: Seq<u32>) -> Seq<u32> {
    old + src.take(accepted_count(old.len(), cap, src.len()) as int)
}

/// How many of `len` offered words a ring holding `held` of `cap` accepts.
pub open spec fn accepted_count(held: nat, cap: nat, len: nat) -> nat {
    if held >= cap {
        0
    } else if len <= cap - held {
        len
    } else {
        (cap - held) as nat
    }
}

/// What an output buffer of `len` words holds after it was filled from a
/// ring holding `held`: the oldest words, then silence for the shortfall.
pub open spec fn filled_output(held: Seq<u32>, len: nat, silence: u32) -> Seq<u32> {
    let n = if held.len() <= len { held.len() } else { len };
    held.take(n as int) + Seq::new((len - n) as nat, |i: int| silence)
}

impl SampleRing {
    pub open spec fn wf(self) -> bool {
        &&& ring_capacity(self) > 0
        &&& ring_contents(self).len() <= ring_capacity(self)
    }

    /// Relies on ringbuf's `HeapRb::new`: an empty ring of exactly `capacity`
    /// places. It panics on a capacity of zero.
    #[verifier::external_body]
    fn make(capacity: usize) -> (r: SampleRing)
        requires
            capacity > 0,
        ensures
            ring_contents(r) == Seq::<u32>::empty(),
            ring_capacity(r) == capacity,
    {
        SampleRing { rb: ringbuf::HeapRb::<u32>::new(capacity) }
    }

    /// Relies on ringbuf's `Observer::occupied_len`: the number of words held.
    #[verifier::external_body]
    fn occupied(&self) -> (n: usize)
        ensures
            n == ring_contents(*self).len(),
    {
        self.rb.occupied_len()
    }

    /// Relies on ringbuf's `Observer::capacity`: the capacity it was made with.
    #[verifier::external_body]
    fn places(&self) -> (n: usize)
        ensures
            n == ring_capacity(*self),
    {
        self.rb.capacity().get()
    }

    /// Relies on ringbuf's `Producer::push_slice`: it copies the longest
    /// prefix of `src` that fits into the vacant places, without blocking, and
    /// returns its length.
    #[verifier::external_body]
    fn push_slice(&mut self, src: &[u32]) -> (n: usize)
        ensures
            n == accepted_count(ring_contents(*old(self)).len(), ring_capacity(*old(self)), src@.len()),
            ring_contents(*final(self)) == pushed_contents(
                ring_contents(*old(self)),
                ring_capacity(*old(self)),
                src@,
            ),
            ring_capacity(*final(self)) == ring_capacity(*old(self)),
    {
        self.rb.push_slice(src)
    }

    /// Relies on ringbuf's `Consumer::pop_slice`: it moves the oldest words,
    /// as many as are held or as `dst` has room for, to the front of `dst`,
    /// and returns how many it moved.
    #[verifier::external_body]
    fn pop_slice(&mut self, dst: &mut Vec<u32>) -> (n: usize)
        ensures
            n == if ring_contents(*old(self)).len() <= old(dst)@.len() {
                ring_contents(*old(self)).len()
            } else {
                old(dst)@.len()
            },
            final(dst)@ == ring_contents(*old(self)).take(n as int) + old(dst)@.skip(n as int),
            ring_contents(*final(self)) == ring_contents(*old(self)).skip(n as int),
            ring_capacity(*final(self)) == ring_capacity(*old(self)),
    {
        self.rb.pop_slice(dst.as_mut_slice())
    }
    /// An empty ring that holds up to `capacity` sample words.
    pub fn new(capacity: usize) -> (r: SampleRing)
        requires
            capacity > 0,
        ensures
            r.wf(),
            ring_contents(r) == Seq::<u32>::empty(),
            ring_capacity(r) == capacity,
    {
        Self::make(capacity)
    }

    /// The number of sample words held.
    pub fn len(&self) -> (n: usize)
        ensures
            n == ring_contents(*self).len(),
    {
        self.occupied()
    }

    /// The number of sample words the ring can hold.
    pub fn capacity(&self) -> (n: usize)
        ensures
            n == ring_capacity(*self),
    {
        self.places()
    }

    /// The number of places still free.
    pub fn vacant(&self) -> (n: usize)
        requires
            self.wf(),
        ensures
            n == ring_capacity(*self) - ring_contents(*self).len(),
    {
        let held = self.occupied();
        let cap = self.places();
        cap - held
    }

    /// Offers `samples[offset..]` to the ring without waiting and returns the
    /// offset of the first word that did not fit (`samples.len()` when all
    /// did).
    pub fn push_from(&mut self, samples: &Vec<u32>, offset: usize) -> (next: usize)
        requires
            old(self).wf(),
            offset <= samples@.len(),
        ensures
            final(self).wf(),
            ring_capacity(*final(self)) == ring_capacity(*old(self)),
            next == offset + accepted_count(
                ring_contents(*old(self)).len(),
                ring_capacity(*old(self)),
                (samples@.len() - offset) as nat,
            ),
            ring_contents(*final(self)) == pushed_contents(
                ring_contents(*old(self)),
                ring_capacity(*old(self)),
                samples@.subrange(offset as int, samples@.len() as int),
            ),
    {
        let rest = slice_subrange(samples.as_slice(), offset, samples.len());
        let n = self.push_slice(rest);
        assert(rest@ =~= samples@.subrange(offset as int, samples@.len() as int));
        offset + n
    }

    /// Fills `data` for the output device: the oldest words held, in order,
    /// then `silence` for whatever the ring could not supply. Every word of
    /// `data` is written. Returns how many words came from the ring.
    pub fn fill_output(&mut self, data: &mut Vec<u32>, silence: u32) -> (n: usize)
        requires
            old(self).wf(),
        ensures
            final(self).wf(),
            ring_capacity(*final(self)) == ring_capacity(*old(self)),
            n == if ring_contents(*old(self)).len() <= old(data)@.len() {
                ring_contents(*old(self)).len()
            } else {
                old(data)@.len()
            },
            final(data)@ == filled_output(ring_contents(*old(self)), old(data)@.len(), silence),
            ring_contents(*final(self)) == ring_contents(*old(self)).skip(n as int),
    {
        let ghost held = ring_contents(*self);
        let n = self.pop_slice(data);
        fill_silence_from(data, n, silence);
        assert(data@ =~= filled_output(held, data@.len(), silence));
        n
    }
}

/// Overwrites `data[from..]` with `silence`, keeping `data[..from]`.
pub fn fill_silence_from(data: &mut Vec<u32>, from: usize, silence: u32)
    requires
        from <= old(data)@.len(),
    ensures
        final(data)@ == old(data)@.take(from as int) + Seq::new(
            (old(data)@.len() - from) as nat,
            |i: int| silence,
        ),
{
    let mut i: usize = from;
    while i < data.len()
        invariant
            from <= i <= data@.len(),
            data@.len() == old(data)@.len(),
            forall|k: int| 0 <= k < from ==> data@[k] == old(data)@[k],
            forall|k: int| from <= k < i ==> data@[k] == silence,
        decreases data@.len() - i,
    {
        data.set(i, silence);
        i = i + 1;
    }
    assert(data@ =~= old(data)@.take(from as int) + Seq::new(
        (old(data)@.len() - from) as nat,
        |i: int| silence,
    ));
}

/// What a full ring does: it accepts nothing that is offered and keeps what
/// it holds, and an output buffer filled from any ring is written whole, each
/// word either a held word or silence.
pub proof fn lemma_backpressure(held: Seq<u32>, cap: nat, src: Seq<u32>, len: nat, silence: u32)
    requires
        held.len() == cap,
    ensures
        accepted_count(held.len(), cap, src.len()) == 0,
        pushed_contents(held, cap, src) == held,
        filled_output(held, len, silence).len() == len,
        forall|i: int|
            0 <= i < len ==> (#[trigger] filled_output(held, len, silence)[i] == silence
                || filled_output(held, len, silence)[i] == held[i]),
{
    assert(pushed_contents(held, cap, src) =~= held);
}

/// What the producer does after offering a run of samples to the ring.
#[derive(Clone, Copy, Debug, PartialEq, Eq, Structural)]
pub enum PushStep {
    /// Every sample was taken.
    Done,
    /// Some are left; wait briefly and offer the rest again.
    Retry,
    /// Some are left and the attempts are used up: drop them.
    GiveUp,
}

/// The producer's decision after an offer took samples up to `next` of a run
/// of `len`, on attempt `attempts` of at most `max_attempts` retries. The
/// producer never retries more than `max_attempts` times, so it never waits
/// without bound on a consumer that stopped draining.
pub fn push_step(next: usize, len: usize, attempts: u32, max_attempts: u32) -> (s: PushStep)
    ensures
        s == if next >= len {
            PushStep::Done
        } else if attempts >= max_attempts {
            PushStep::GiveUp
        } else {
            PushStep::Retry
        },
        s == PushStep::Retry ==> attempts < max_attempts,
{
    if next >= len {
        PushStep::Done
    } else if attempts >= max_attempts {
        PushStep::GiveUp
    } else {
        PushStep::Retry
    }
}

} // verus!
