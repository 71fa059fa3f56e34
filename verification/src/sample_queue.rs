//! A bounded queue of stereo audio frames that never blocks either side.
//!
//! The queue is a fixed-capacity ring buffer. The producer (the
//! production thread) pushes frames; when the queue is full the newest
//! frame is dropped and `push` reports it, but nothing ever waits. The
//! consumer (the audio callback) pops frames; when the queue is empty it
//! receives the silence frame chosen at construction, never an error and
//! never a wait. Capacity is fixed at construction and does not change
//! for the queue's lifetime.
//!
//! The element type is generic: a stereo frame is whatever value type the
//! surrounding program moves through the bridge, and the queue's
//! guarantees are about order and count, not about the samples inside.

use vstd::prelude::*;

verus! {

/// Position inside the ring's backing storage of the `i`-th queued frame,
/// counting from the oldest, when the oldest sits at `head` and the
/// storage holds `cap` slots.
spec fn ring_index(head: int, i: int, cap: int) -> int {
    if head + i < cap {
        head + i
    } else {
        head + i - cap
    }
}

/// A fixed-capacity, non-blocking ring buffer of audio frames.
///
/// Abstractly the queue is the sequence of frames it currently holds,
/// oldest first, given by `view` (written `self@` in contracts).
pub struct SampleQueue<T> {
    /// Backing storage; its length is the queue's capacity and never
    /// changes after construction.
    buf: Vec<T>,
    /// Index into `buf` of the oldest queued frame.
    head: usize,
    /// Number of frames currently queued.
    len: usize,
    /// The frame handed out when the queue is empty.
    silence: T,
}

impl<T> View for SampleQueue<T> {
    type V = Seq<T>;

    /// The queued frames, oldest first.
    closed spec fn view(&self) -> Seq<T> {
        Seq::new(
            self.len as nat,
            |i: int| self.buf@[ring_index(self.head as int, i, self.buf@.len() as int)],
        )
    }
}

impl<T> SampleQueue<T> {
    /// Structural soundness of the ring: the indices address the backing
    /// storage and the count fits the capacity. Every queue satisfies
    /// this by construction.
    #[verifier::type_invariant]
    pub closed spec fn wf(&self) -> bool {
        &&& self.buf@.len() >= 1
        &&& (self.head as int) < self.buf@.len()
        &&& (self.len as int) <= self.buf@.len()
    }

    /// The fixed capacity: the greatest number of frames the queue can
    /// hold at once.
    pub closed spec fn cap(&self) -> nat {
        self.buf@.len()
    }

    /// The frame returned by `pop` when the queue is empty.
    pub closed spec fn spec_silence(&self) -> T {
        self.silence
    }

    /// Bounds every queue carries by construction: at least one slot of
    /// capacity, and never more frames than capacity. The premise is
    /// recovered for any live queue with `use_type_invariant`.
    pub proof fn lemma_bounds(&self)
        requires
            self.wf(),
        ensures
            self.cap() >= 1,
            self@.len() <= self.cap(),
    {
    }
}

impl<T: Copy> SampleQueue<T> {
    /// Makes an empty queue of the given capacity. `silence` is the frame
    /// an empty queue yields to the consumer.
    pub fn new(capacity: usize, silence: T) -> (q: Self)
        requires
            capacity >= 1,
        ensures
            q@ == Seq::<T>::empty(),
            q.cap() == capacity,
            q.spec_silence() == silence,
    {
        let mut buf: Vec<T> = Vec::new();
        let mut i: usize = 0;
        while i < capacity
            invariant
                i <= capacity,
                buf@.len() == i,
            decreases capacity - i,
        {
            buf.push(silence);
            i = i + 1;
        }
        let q = SampleQueue { buf, head: 0, len: 0, silence };
        proof {
            assert(q@ =~= Seq::<T>::empty());
        }
        q
    }

    /// Number of frames currently queued.
    pub fn len(&self) -> (n: usize)
        ensures
            n == self@.len(),
    {
        self.len
    }

    /// The fixed capacity.
    pub fn capacity(&self) -> (c: usize)
        ensures
            c == self.cap(),
    {
        self.buf.len()
    }

    /// Whether the queue holds no frames.
    pub fn is_empty(&self) -> (b: bool)
        ensures
            b == (self@.len() == 0),
    {
        self.len == 0
    }

    /// Whether the queue is at capacity, so that the next push would drop
    /// its frame.
    pub fn is_full(&self) -> (b: bool)
        ensures
            b == (self@.len() == self.cap()),
    {
        self.len == self.buf.len()
    }

    /// Offers a frame to the queue. Returns `true` and appends the frame
    /// when there is room; returns `false` and leaves the queue unchanged
    /// when the queue is full — the newest frame is dropped, nothing
    /// blocks and nothing fails.
    pub fn push(&mut self, frame: T) -> (accepted: bool)
        ensures
            final(self).cap() == old(self).cap(),
            final(self).spec_silence() == old(self).spec_silence(),
            old(self)@.len() < old(self).cap() ==> {
                &&& accepted
                &&& final(self)@ == old(self)@.push(frame)
            },
            old(self)@.len() == old(self).cap() ==> {
                &&& !accepted
                &&& final(self)@ == old(self)@
            },
    {
        proof {
            use_type_invariant(&*self);
        }
        if self.len == self.buf.len() {
            return false;
        }
        let cap = self.buf.len();
        let room_to_end = cap - self.head;
        let idx = if self.len >= room_to_end {
            self.len - room_to_end
        } else {
            self.head + self.len
        };
        assert(idx == ring_index(self.head as int, self.len as int, cap as int));
        self.buf[idx] = frame;
        self.len = self.len + 1;
        proof {
            assert(self@ =~= old(self)@.push(frame));
        }
        true
    }

    /// Takes the oldest frame. An empty queue yields the silence frame
    /// and stays empty: the consumer is never blocked and never sees an
    /// error.
    pub fn pop(&mut self) -> (frame: T)
        ensures
            final(self).cap() == old(self).cap(),
            final(self).spec_silence() == old(self).spec_silence(),
            old(self)@.len() == 0 ==> {
                &&& frame == old(self).spec_silence()
                &&& final(self)@ == old(self)@
            },
            old(self)@.len() > 0 ==> {
                &&& frame == old(self)@[0]
                &&& final(self)@ == old(self)@.subrange(1, old(self)@.len() as int)
            },
    {
        proof {
            use_type_invariant(&*self);
        }
        if self.len == 0 {
            return self.silence;
        }
        let frame = self.buf[self.head];
        let cap = self.buf.len();
        self.head = if self.head + 1 == cap {
            0
        } else {
            self.head + 1
        };
        self.len = self.len - 1;
        proof {
            assert(self@ =~= old(self)@.subrange(1, old(self)@.len() as int));
        }
        frame
    }
}

} // verus!
