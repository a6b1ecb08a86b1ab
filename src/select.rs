//! The stream selector: the streams of one kind in a container, the one in
//! use, and the user-facing ordinal that cycles through them.
use vstd::prelude::*;

verus! {

/// The streams of one kind, by stream index, and the position of the one in
/// use.
pub struct StreamCycle {
    streams: Vec<usize>,
    current: usize,
}

impl View for StreamCycle {
    type V = (Seq<usize>, nat);

    closed spec fn view(&self) -> (Seq<usize>, nat) {
        (self.streams@, self.current as nat)
    }
}

/// Whether `streams` holds `s`.
pub open spec fn holds(streams: Seq<usize>, s: usize) -> bool {
    exists|i: int| 0 <= i < streams.len() && streams[i] == s
}

impl StreamCycle {
    pub open spec fn wf(self) -> bool {
        self@.1 < self@.0.len()
    }

    /// The streams `streams` with `best` in use, at its first position; `None`
    /// when `streams` does not hold `best`.
    pub fn new(streams: Vec<usize>, best: usize) -> (c: Option<StreamCycle>)
        ensures
            c is Some <==> holds(streams@, best),
            match c {
                Some(c) => {
                    &&& c.wf()
                    &&& c@.0 == streams@
                    &&& streams@[c@.1 as int] == best
                    &&& forall|j: int| 0 <= j < c@.1 ==> streams@[j] != best
                },
                None => true,
            },
    {
        let mut i: usize = 0;
        while i < streams.len()
            invariant
                i <= streams@.len(),
                forall|j: int| 0 <= j < i ==> streams@[j] != best,
            decreases streams@.len() - i,
        {
            if streams[i] == best {
                return Some(StreamCycle { streams, current: i });
            }
            i = i + 1;
        }
        None
    }

    /// The stream index in use.
    pub fn current_stream(&self) -> (s: usize)
        requires
            self.wf(),
        ensures
            s == self@.0[self@.1 as int],
    {
        self.streams[self.current]
    }

    /// The user-facing ordinal of the stream in use, from zero.
    pub fn ordinal(&self) -> (n: usize)
        ensures
            n == self@.1,
    {
        self.current
    }

    /// The number of streams of this kind.
    pub fn count(&self) -> (n: usize)
        ensures
            n == self@.0.len(),
    {
        self.streams.len()
    }

    /// Moves to the next stream, wrapping to the first after the last, and
    /// returns its stream index.
    pub fn cycle(&mut self) -> (s: usize)
        requires
            old(self).wf(),
        ensures
            final(self).wf(),
            final(self)@.0 == old(self)@.0,
            final(self)@.1 == if old(self)@.1 + 1 < old(self)@.0.len() {
                old(self)@.1 + 1
            } else {
                0
            },
            s == final(self)@.0[final(self)@.1 as int],
    {
        if self.current < self.streams.len() - 1 {
            self.current = self.current + 1;
        } else {
            self.current = 0;
        }
        self.streams[self.current]
    }
}

} // verus!
