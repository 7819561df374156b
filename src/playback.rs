//! Playback buffer and the real-time read that feeds the output device.
//!
//! The real-time read takes exactly the requested number of samples: the
//! oldest buffered ones first, then silence for any shortfall. It never waits.
use vstd::prelude::*;
use std::collections::VecDeque;

verus! {

/// `n` copies of the silence value.
pub open spec fn silence_run<T>(n: nat, silence: T) -> Seq<T> {
    Seq::new(n, |i: int| silence)
}

/// What a request for `n` samples yields when `available` are buffered.
pub open spec fn rendered<T>(available: Seq<T>, n: nat, silence: T) -> Seq<T> {
    let k = if available.len() < n { available.len() } else { n };
    available.take(k as int) + silence_run((n - k) as nat, silence)
}

/// Overwrites `out[written..]` with the silence value and keeps the first
/// `written` samples.
pub fn pad_silence<T: Copy>(out: &mut [T], written: usize, silence: T)
    requires
        written <= old(out)@.len(),
    ensures
        final(out)@ == old(out)@.take(written as int) + silence_run(
            (old(out)@.len() - written) as nat,
            silence,
        ),
{
    let n = out.len();
    let mut i = written;
    while i < n
        invariant
            written <= i <= n,
            n == old(out)@.len(),
            out@.len() == n,
            forall|j: int| 0 <= j < written ==> out@[j] == old(out)@[j],
            forall|j: int| written <= j < i ==> out@[j] == silence,
        decreases n - i,
    {
        out[i] = silence;
        i = i + 1;
    }
    assert(out@ =~= old(out)@.take(written as int) + silence_run((n - written) as nat, silence));
}

/// A bounded queue of samples between the decode path and the real-time
/// read. Overflow is refused: a push takes only what fits and reports how
/// much, so the producer can wait and retry; the consumer never waits.
pub struct PlaybackBuffer<T> {
    queue: VecDeque<T>,
    capacity: usize,
}

impl<T: Copy> PlaybackBuffer<T> {
    /// The buffered samples, oldest first.
    pub closed spec fn contents(&self) -> Seq<T> {
        self.queue@
    }

    pub closed spec fn capacity_spec(&self) -> nat {
        self.capacity as nat
    }

    pub closed spec fn wf(&self) -> bool {
        self.queue@.len() <= self.capacity
    }

    /// An empty buffer holding at most `capacity` samples.
    pub fn new(capacity: usize) -> (r: Self)
        ensures
            r.wf(),
            r.contents() == Seq::<T>::empty(),
            r.capacity_spec() == capacity,
    {
        PlaybackBuffer { queue: VecDeque::new(), capacity }
    }

    /// The number of buffered samples.
    pub fn len(&self) -> (n: usize)
        ensures
            n == self.contents().len(),
    {
        self.queue.len()
    }

    /// Whether nothing is buffered.
    pub fn is_empty(&self) -> (r: bool)
        ensures
            r == (self.contents().len() == 0),
    {
        self.queue.len() == 0
    }

    /// The fixed capacity.
    pub fn capacity(&self) -> (n: usize)
        ensures
            n == self.capacity_spec(),
    {
        self.capacity
    }

    /// Appends the leading samples of `samples` that fit; returns how many.
    pub fn push_slice(&mut self, samples: &[T]) -> (pushed: usize)
        requires
            old(self).wf(),
        ensures
            final(self).wf(),
            final(self).capacity_spec() == old(self).capacity_spec(),
            pushed as nat == if old(self).contents().len() + samples@.len()
                <= old(self).capacity_spec() {
                samples@.len()
            } else {
                (old(self).capacity_spec() - old(self).contents().len()) as nat
            },
            final(self).contents() == old(self).contents() + samples@.take(pushed as int),
    {
        let free = self.capacity - self.queue.len();
        let count: usize = if samples.len() <= free { samples.len() } else { free };
        let mut i: usize = 0;
        while i < count
            invariant
                i <= count <= samples@.len(),
                count <= free,
                free == self.capacity - old(self).queue@.len(),
                self.capacity == old(self).capacity,
                self.queue@ == old(self).queue@ + samples@.take(i as int),
                old(self).queue@.len() <= old(self).capacity,
            decreases count - i,
        {
            self.queue.push_back(samples[i]);
            i = i + 1;
            assert(self.queue@ =~= old(self).queue@ + samples@.take(i as int));
        }
        count
    }

    /// Moves the oldest samples into the front of `out`, as many as are
    /// buffered and fit; returns how many.
    pub fn pop_slice(&mut self, out: &mut [T]) -> (popped: usize)
        requires
            old(self).wf(),
        ensures
            final(self).wf(),
            final(self).capacity_spec() == old(self).capacity_spec(),
            popped == if old(self).contents().len() < old(out)@.len() {
                old(self).contents().len()
            } else {
                old(out)@.len() as nat
            },
            final(out)@ == old(self).contents().take(popped as int) + old(out)@.skip(
                popped as int,
            ),
            final(self).contents() == old(self).contents().skip(popped as int),
    {
        let n = out.len();
        let mut i: usize = 0;
        while i < n
            invariant
                i <= n,
                n == old(out)@.len(),
                out@.len() == n,
                i <= old(self).queue@.len(),
                self.capacity == old(self).capacity,
                self.queue@ == old(self).queue@.skip(i as int),
                forall|j: int| 0 <= j < i ==> out@[j] == old(self).queue@[j],
                forall|j: int| i <= j < n ==> out@[j] == old(out)@[j],
                old(self).queue@.len() <= old(self).capacity,
            ensures
                i == n || i == old(self).queue@.len(),
            decreases n - i,
        {
            match self.queue.pop_front() {
                Some(v) => {
                    out[i] = v;
                    i = i + 1;
                    assert(self.queue@ =~= old(self).queue@.skip(i as int));
                },
                None => {
                    break;
                },
            }
        }
        assert(out@ =~= old(self).queue@.take(i as int) + old(out)@.skip(i as int));
        i
    }

    /// The real-time read: fills all of `out`, first with the oldest buffered
    /// samples, then with `silence` for any shortfall; returns how many
    /// buffered samples were used.
    pub fn render(&mut self, out: &mut [T], silence: T) -> (popped: usize)
        requires
            old(self).wf(),
        ensures
            final(self).wf(),
            final(self).capacity_spec() == old(self).capacity_spec(),
            final(out)@ == rendered(old(self).contents(), old(out)@.len(), silence),
            final(self).contents() == old(self).contents().skip(popped as int),
            popped == if old(self).contents().len() < old(out)@.len() {
                old(self).contents().len()
            } else {
                old(out)@.len() as nat
            },
    {
        let popped = self.pop_slice(out);
        pad_silence(out, popped, silence);
        assert(out@ =~= rendered(old(self).contents(), old(out)@.len(), silence));
        popped
    }
}

} // verus!
