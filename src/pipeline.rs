//! The producer side of a playback session: transport ingestion, dispatch,
//! and the startup primer, with a count of the chunks that failed to decode.
//! Decoding itself happens between `ingest` and `deliver`.
use vstd::prelude::*;
use crate::error::Error;
use crate::primer::{accept_model, batch_view, model_wf, PrimerModel, StartupPrimer};
use crate::transport::{accepted, flush_due, TransportBuffer};

verus! {

/// The decode outcome of a chunk as seen by the primer.
pub open spec fn outcome_view<T>(outcome: Result<Vec<T>, Error>) -> Option<Seq<T>> {
    match outcome {
        Ok(v) => Some(v@),
        Err(_) => None,
    }
}

pub struct Pipeline<T> {
    transport: TransportBuffer,
    primer: StartupPrimer<T>,
    discarded: u64,
}

impl<T> Pipeline<T> {
    pub closed spec fn transport_view(&self) -> TransportBuffer {
        self.transport
    }

    pub closed spec fn primer_model(&self) -> PrimerModel<T> {
        self.primer.model()
    }

    /// The number of chunks dropped because they failed to decode (it stops
    /// at `u64::MAX`).
    pub closed spec fn discarded_spec(&self) -> nat {
        self.discarded as nat
    }

    pub closed spec fn wf(&self) -> bool {
        self.transport.wf() && self.primer.wf()
    }

    /// A session with an empty transport buffer of `capacity` bytes that
    /// dispatches at `threshold` bytes, and a primer armed for `target_size`
    /// samples.
    pub fn new(capacity: usize, threshold: usize, target_size: usize) -> (r: Self)
        requires
            0 < capacity,
            threshold <= capacity,
        ensures
            r.wf(),
            r.transport_view().contents() == Seq::<u8>::empty(),
            r.transport_view().capacity_spec() == capacity,
            r.transport_view().threshold_spec() == threshold,
            r.primer_model() == (PrimerModel::<T> {
                accumulated: Seq::empty(),
                target: target_size as nat,
                armed: true,
            }),
            r.discarded_spec() == 0,
    {
        Pipeline {
            transport: TransportBuffer::new(capacity, threshold),
            primer: StartupPrimer::new(target_size),
            discarded: 0,
        }
    }

    /// Hands one ingestion read to the transport buffer; returns how many
    /// bytes were taken and the chunk to decode, if the trigger fired.
    pub fn ingest(&mut self, bytes: &[u8]) -> (r: (usize, Option<Vec<u8>>))
        requires
            old(self).wf(),
        ensures
            final(self).wf(),
            final(self).primer_model() == old(self).primer_model(),
            final(self).discarded_spec() == old(self).discarded_spec(),
            final(self).transport_view().capacity_spec() == old(self).transport_view().capacity_spec(),
            final(self).transport_view().threshold_spec() == old(self).transport_view().threshold_spec(),
            ({
                let old_t = old(self).transport_view();
                let appended = old_t.contents() + bytes@.subrange(0, r.0 as int);
                &&& r.0 == accepted(old_t.contents().len(), old_t.capacity_spec(), bytes@.len())
                &&& if flush_due(appended.len(), old_t.capacity_spec(), old_t.threshold_spec()) {
                    &&& r.1.is_some()
                    &&& r.1.unwrap()@ == appended
                    &&& final(self).transport_view().contents() == Seq::<u8>::empty()
                } else {
                    &&& r.1.is_none()
                    &&& final(self).transport_view().contents() == appended
                }
            }),
    {
        self.transport.ingest(bytes)
    }

    /// Hands the decode outcome of a dispatched chunk to the primer; returns
    /// the batch to push to the playback buffer, if any. A failed chunk is
    /// dropped and counted.
    pub fn deliver(&mut self, outcome: Result<Vec<T>, Error>) -> (r: Option<Vec<T>>)
        requires
            old(self).wf(),
        ensures
            final(self).wf(),
            model_wf(final(self).primer_model()),
            final(self).transport_view() == old(self).transport_view(),
            (final(self).primer_model(), batch_view(r)) == accept_model(
                old(self).primer_model(),
                outcome_view(outcome),
            ),
            final(self).discarded_spec() == if outcome is Err && old(self).discarded_spec()
                < u64::MAX {
                old(self).discarded_spec() + 1
            } else {
                old(self).discarded_spec()
            },
    {
        if outcome.is_err() {
            self.discarded = self.discarded.saturating_add(1);
        }
        self.primer.accept(outcome)
    }

    /// The number of chunks dropped because they failed to decode.
    pub fn discarded(&self) -> (n: u64)
        ensures
            n == self.discarded_spec(),
    {
        self.discarded
    }

    /// Whether the primer is still holding samples back.
    pub fn is_priming(&self) -> (r: bool)
        ensures
            r == self.primer_model().armed,
    {
        self.primer.is_armed()
    }
}

} // verus!
