//! Transport ingestion buffer and chunk dispatcher.
//!
//! Bytes read from the downloader are appended to a bounded byte ring. After
//! each append the dispatcher drains the whole ring as one chunk when the ring
//! is full or holds at least the flush threshold.
use vstd::prelude::*;
use vstd::arithmetic::div_mod::{lemma_fundamental_div_mod, lemma_fundamental_div_mod_converse};
use ringbuf::Rb;
use std::mem::MaybeUninit;

verus! {

/// A byte ring of the ringbuf crate, kept in a single thread; what it holds is
/// described by `ring_contents` and `ring_capacity`.
#[verifier::external_body]
pub struct ByteRing {
    rb: ringbuf::LocalRb<u8, Vec<MaybeUninit<u8>>>,
}

/// The bytes held by a ring, oldest first.
pub uninterp spec fn ring_contents(r: ByteRing) -> Seq<u8>;

/// The fixed capacity a ring was made with.
pub uninterp spec fn ring_capacity(r: ByteRing) -> nat;

/// Relies on `LocalRb::new`: an empty ring of the given capacity (it panics on zero).
#[verifier::external_body]
fn ring_new(capacity: usize) -> (r: ByteRing)
    requires
        capacity > 0,
    ensures
        ring_contents(r) == Seq::<u8>::empty(),
        ring_capacity(r) == capacity,
{
    ByteRing { rb: ringbuf::LocalRb::new(capacity) }
}

/// Relies on `Rb::len`: the number of bytes held.
#[verifier::external_body]
fn ring_len(r: &ByteRing) -> (n: usize)
    ensures
        n == ring_contents(*r).len(),
{
    r.rb.len()
}

/// Relies on `Rb::push_slice`: appends all of `bytes` (it panics when they do not fit).
#[verifier::external_body]
fn ring_push_slice(r: &mut ByteRing, bytes: &[u8])
    requires
        ring_contents(*old(r)).len() + bytes@.len() <= ring_capacity(*old(r)),
    ensures
        ring_contents(*final(r)) == ring_contents(*old(r)) + bytes@,
        ring_capacity(*final(r)) == ring_capacity(*old(r)),
{
    r.rb.push_slice(bytes)
}

/// Relies on `Rb::pop_iter`: removes every byte held, oldest first.
#[verifier::external_body]
fn ring_drain(r: &mut ByteRing) -> (out: Vec<u8>)
    ensures
        out@ == ring_contents(*old(r)),
        ring_contents(*final(r)) == Seq::<u8>::empty(),
        ring_capacity(*final(r)) == ring_capacity(*old(r)),
{
    r.rb.pop_iter().collect()
}

/// The dispatcher's trigger: the ring is at full capacity, or holds at least
/// the flush threshold.
pub open spec fn flush_due(len: nat, capacity: nat, threshold: nat) -> bool {
    len == capacity || len >= threshold
}

/// The number of bytes that an ingestion read of `offered` bytes hands over
/// when `len` of `capacity` are in use.
pub open spec fn accepted(len: nat, capacity: nat, offered: nat) -> nat {
    if len + offered <= capacity {
        offered
    } else {
        (capacity - len) as nat
    }
}

/// Transport ingestion buffer: a bounded byte ring with a flush threshold.
pub struct TransportBuffer {
    ring: ByteRing,
    capacity: usize,
    threshold: usize,
}

impl TransportBuffer {
    /// The bytes waiting for the next dispatch, oldest first.
    pub closed spec fn contents(&self) -> Seq<u8> {
        ring_contents(self.ring)
    }

    /// The fixed capacity of the buffer.
    pub closed spec fn capacity_spec(&self) -> nat {
        self.capacity as nat
    }

    /// The flush threshold of the buffer.
    pub closed spec fn threshold_spec(&self) -> nat {
        self.threshold as nat
    }

    /// Between ingestion reads no trigger is pending: the buffer holds less
    /// than the threshold, or nothing.
    pub closed spec fn wf(&self) -> bool {
        &&& 0 < self.capacity
        &&& self.threshold <= self.capacity
        &&& ring_capacity(self.ring) == self.capacity as nat
        &&& ring_contents(self.ring).len() == 0 || ring_contents(self.ring).len()
            < self.threshold
    }

    /// An empty buffer of `capacity` bytes that dispatches at `threshold` bytes.
    pub fn new(capacity: usize, threshold: usize) -> (r: Self)
        requires
            0 < capacity,
            threshold <= capacity,
        ensures
            r.wf(),
            r.contents() == Seq::<u8>::empty(),
            r.capacity_spec() == capacity,
            r.threshold_spec() == threshold,
    {
        TransportBuffer { ring: ring_new(capacity), capacity, threshold }
    }

    /// The number of bytes waiting.
    pub fn len(&self) -> (n: usize)
        requires
            self.wf(),
        ensures
            n == self.contents().len(),
    {
        ring_len(&self.ring)
    }

    /// The fixed capacity.
    pub fn capacity(&self) -> (n: usize)
        ensures
            n == self.capacity_spec(),
    {
        self.capacity
    }

    /// The flush threshold.
    pub fn threshold(&self) -> (n: usize)
        ensures
            n == self.threshold_spec(),
    {
        self.threshold
    }

    /// Appends one ingestion read and runs the dispatcher's trigger check.
    ///
    /// Takes as many leading bytes as fit (the caller keeps the rest for the
    /// next read; nothing is dropped). When the buffer is then full or holds at
    /// least the threshold, its whole content is drained into one chunk, which
    /// is returned for decoding, and the buffer is left empty.
    pub fn ingest(&mut self, bytes: &[u8]) -> (r: (usize, Option<Vec<u8>>))
        requires
            old(self).wf(),
        ensures
            final(self).wf(),
            final(self).capacity_spec() == old(self).capacity_spec(),
            final(self).threshold_spec() == old(self).threshold_spec(),
            r.0 == accepted(old(self).contents().len(), old(self).capacity_spec(), bytes@.len()),
            ({
                let appended = old(self).contents() + bytes@.subrange(0, r.0 as int);
                if flush_due(appended.len(), old(self).capacity_spec(), old(self).threshold_spec()) {
                    &&& r.1.is_some()
                    &&& r.1.unwrap()@ == appended
                    &&& final(self).contents() == Seq::<u8>::empty()
                } else {
                    &&& r.1.is_none()
                    &&& final(self).contents() == appended
                }
            }),
    {
        let len = ring_len(&self.ring);
        let free = self.capacity - len;
        let taken: usize = if bytes.len() <= free { bytes.len() } else { free };
        ring_push_slice(&mut self.ring, &bytes[0..taken]);
        let new_len = len + taken;
        if new_len == self.capacity || new_len >= self.threshold {
            let chunk = ring_drain(&mut self.ring);
            (taken, Some(chunk))
        } else {
            (taken, None)
        }
    }
}

/// The total number of bytes in a sequence of ingestion reads.
pub open spec fn total(pushes: Seq<nat>) -> nat
    decreases pushes.len(),
{
    if pushes.len() == 0 {
        0
    } else {
        total(pushes.drop_last()) + pushes.last()
    }
}

/// Runs the dispatcher over a sequence of read sizes, starting from an empty
/// buffer: the bytes left waiting, and the number of flushes.
pub open spec fn dispatch_run(pushes: Seq<nat>, capacity: nat, threshold: nat) -> (nat, nat)
    decreases pushes.len(),
{
    if pushes.len() == 0 {
        (0, 0)
    } else {
        let prev = dispatch_run(pushes.drop_last(), capacity, threshold);
        let n = prev.0 + accepted(prev.0, capacity, pushes.last());
        if flush_due(n, capacity, threshold) {
            (0, prev.1 + 1)
        } else {
            (n, prev.1)
        }
    }
}

/// No read carries the buffer past the next multiple of the threshold: the
/// pushes never exceed what fits before the next flush.
pub open spec fn threshold_aligned(pushes: Seq<nat>, threshold: nat) -> bool {
    forall|i: int| 0 <= i < pushes.len() ==> #[trigger] total(pushes.take(i)) % threshold + pushes[i]
        <= threshold
}

/// When reads never carry the buffer past the next multiple of the threshold
/// `T`, a total of `S` bytes causes exactly `S / T` flushes (so `S / T` when
/// `S` is a multiple of `T`), and `S % T` bytes are left waiting.
pub proof fn lemma_flush_count(pushes: Seq<nat>, capacity: nat, threshold: nat)
    requires
        0 < threshold <= capacity,
        threshold_aligned(pushes, threshold),
    ensures
        dispatch_run(pushes, capacity, threshold).1 == total(pushes) / threshold,
        dispatch_run(pushes, capacity, threshold).0 == total(pushes) % threshold,
    decreases pushes.len(),
{
    let t = threshold as int;
    if pushes.len() == 0 {
        assert(0int / t == 0) by (nonlinear_arith) requires t > 0;
        assert(0int % t == 0) by (nonlinear_arith) requires t > 0;
    } else {
        let init = pushes.drop_last();
        assert forall|i: int| 0 <= i < init.len() implies #[trigger] total(init.take(i)) % threshold
            + init[i] <= threshold by {
            assert(init.take(i) == pushes.take(i));
            assert(total(pushes.take(i)) % threshold + pushes[i] <= threshold);
        }
        lemma_flush_count(init, capacity, threshold);
        let last_i = pushes.len() - 1;
        assert(pushes.take(last_i) == init);
        assert(total(pushes.take(last_i)) % threshold + pushes[last_i] <= threshold);
        let a = total(init) as int;
        let p = pushes.last() as int;
        lemma_fundamental_div_mod(a, t);
        let q = a / t;
        let r = a % t;
        assert(r + p <= t);
        if r + p == t {
            assert(a + p == (q + 1) * t + 0) by (nonlinear_arith)
                requires
                    a == t * q + r,
                    r + p == t,
            ;
            lemma_fundamental_div_mod_converse(a + p, t, q + 1, 0);
        } else {
            assert(a + p == q * t + (r + p)) by (nonlinear_arith)
                requires
                    a == t * q + r,
            ;
            lemma_fundamental_div_mod_converse(a + p, t, q, r + p);
        }
    }
}

} // verus!
