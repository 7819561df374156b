//! Startup primer: withholds decoded samples until a minimum amount has been
//! gathered, releases them as one batch, and from then on passes every chunk
//! straight through.
use vstd::prelude::*;
use crate::error::Error;

verus! {

/// The abstract state of a primer.
pub struct PrimerModel<T> {
    pub accumulated: Seq<T>,
    pub target: nat,
    pub armed: bool,
}

/// A primer state that can occur: only an armed primer holds samples back.
pub open spec fn model_wf<T>(s: PrimerModel<T>) -> bool {
    !s.armed ==> s.accumulated.len() == 0
}

/// One decoded chunk fed to the primer: the next state, and the batch handed
/// to the playback buffer (`None` when nothing is handed over).
pub open spec fn feed_model<T>(s: PrimerModel<T>, chunk: Seq<T>) -> (PrimerModel<T>, Option<Seq<T>>) {
    if !s.armed {
        (s, Some(chunk))
    } else {
        let acc = s.accumulated + chunk;
        if acc.len() >= s.target {
            (PrimerModel { accumulated: Seq::empty(), target: s.target, armed: false }, Some(acc))
        } else {
            (PrimerModel { accumulated: acc, target: s.target, armed: true }, None)
        }
    }
}

/// One decode outcome handed to the primer: a failed chunk (`None`) is dropped
/// and changes nothing.
pub open spec fn accept_model<T>(s: PrimerModel<T>, outcome: Option<Seq<T>>) -> (PrimerModel<T>, Option<Seq<T>>) {
    match outcome {
        Some(chunk) => feed_model(s, chunk),
        None => (s, None),
    }
}

/// Feeds a sequence of decode outcomes in order: the final state, and what
/// each step handed to the playback buffer.
pub open spec fn primer_run<T>(s: PrimerModel<T>, outcomes: Seq<Option<Seq<T>>>) -> (PrimerModel<T>, Seq<Option<Seq<T>>>)
    decreases outcomes.len(),
{
    if outcomes.len() == 0 {
        (s, Seq::empty())
    } else {
        let prev = primer_run(s, outcomes.drop_last());
        let step = accept_model(prev.0, outcomes.last());
        (step.0, prev.1.push(step.1))
    }
}

/// The concatenation, in order, of the present entries.
pub open spec fn flatten_present<T>(items: Seq<Option<Seq<T>>>) -> Seq<T>
    decreases items.len(),
{
    if items.len() == 0 {
        Seq::empty()
    } else {
        flatten_present(items.drop_last()) + match items.last() {
            Some(b) => b,
            None => Seq::empty(),
        }
    }
}

/// A freshly armed primer with nothing gathered.
pub open spec fn fresh_model<T>(target: nat) -> PrimerModel<T> {
    PrimerModel { accumulated: Seq::empty(), target, armed: true }
}

/// The spec view of an optional batch.
pub open spec fn batch_view<T>(b: Option<Vec<T>>) -> Option<Seq<T>> {
    match b {
        Some(v) => Some(v@),
        None => None,
    }
}

/// The startup primer of a playback session.
pub struct StartupPrimer<T> {
    accumulated: Vec<T>,
    target_size: usize,
    armed: bool,
}

impl<T> StartupPrimer<T> {
    /// The abstract state.
    pub closed spec fn model(&self) -> PrimerModel<T> {
        PrimerModel {
            accumulated: self.accumulated@,
            target: self.target_size as nat,
            armed: self.armed,
        }
    }

    /// Only an armed primer holds samples back.
    pub open spec fn wf(&self) -> bool {
        model_wf(self.model())
    }

    /// An armed primer that releases once `target_size` samples are gathered.
    pub fn new(target_size: usize) -> (r: Self)
        ensures
            r.wf(),
            r.model() == fresh_model::<T>(target_size as nat),
    {
        StartupPrimer { accumulated: Vec::new(), target_size, armed: true }
    }

    /// Whether samples are still being held back.
    pub fn is_armed(&self) -> (r: bool)
        ensures
            r == self.model().armed,
    {
        self.armed
    }

    /// The number of samples held back.
    pub fn accumulated_len(&self) -> (r: usize)
        ensures
            r == self.model().accumulated.len(),
    {
        self.accumulated.len()
    }

    /// The release threshold.
    pub fn target_size(&self) -> (r: usize)
        ensures
            r == self.model().target,
    {
        self.target_size
    }

    /// Feeds one decoded chunk; returns the batch to push to the playback
    /// buffer, if any.
    pub fn feed(&mut self, chunk: Vec<T>) -> (r: Option<Vec<T>>)
        requires
            old(self).wf(),
        ensures
            final(self).wf(),
            (final(self).model(), batch_view(r)) == feed_model(old(self).model(), chunk@),
    {
        let mut chunk = chunk;
        if !self.armed {
            return Some(chunk);
        }
        self.accumulated.append(&mut chunk);
        if self.accumulated.len() >= self.target_size {
            let mut batch: Vec<T> = Vec::new();
            core::mem::swap(&mut batch, &mut self.accumulated);
            self.armed = false;
            Some(batch)
        } else {
            None
        }
    }

    /// Hands one decode outcome to the primer: a failed chunk is dropped.
    pub fn accept(&mut self, outcome: Result<Vec<T>, Error>) -> (r: Option<Vec<T>>)
        requires
            old(self).wf(),
        ensures
            final(self).wf(),
            (final(self).model(), batch_view(r)) == accept_model(
                old(self).model(),
                match outcome {
                    Ok(v) => Some(v@),
                    Err(_) => None,
                },
            ),
    {
        match outcome {
            Ok(chunk) => self.feed(chunk),
            Err(_) => None,
        }
    }

    /// Re-arms the primer when the playback buffer has run dry and nothing is
    /// held back; otherwise changes nothing.
    pub fn rearm(&mut self, playback_empty: bool)
        requires
            old(self).wf(),
        ensures
            final(self).wf(),
            final(self).model().accumulated == old(self).model().accumulated,
            final(self).model().target == old(self).model().target,
            final(self).model().armed == (old(self).model().armed || (playback_empty
                && old(self).model().accumulated.len() == 0)),
    {
        if playback_empty && self.accumulated.len() == 0 {
            self.armed = true;
        }
    }
}

/// Samples are never reordered or duplicated: from any reachable state, what
/// the primer hands to the playback buffer over a run, followed by what it
/// still holds back, is what it held before followed by the successful decode
/// outputs in arrival order; failed chunks contribute nothing.
pub proof fn lemma_order_preserved<T>(s: PrimerModel<T>, outcomes: Seq<Option<Seq<T>>>)
    requires
        model_wf(s),
    ensures
        model_wf(primer_run(s, outcomes).0),
        primer_run(s, outcomes).0.target == s.target,
        flatten_present(primer_run(s, outcomes).1) + primer_run(s, outcomes).0.accumulated
            == s.accumulated + flatten_present(outcomes),
    decreases outcomes.len(),
{
    if outcomes.len() > 0 {
        let init = outcomes.drop_last();
        lemma_order_preserved(s, init);
        let run = primer_run(s, outcomes);
        let prev = primer_run(s, init);
        assert(run.1.drop_last() == prev.1);
        match outcomes.last() {
            Some(c) => {
                assert(flatten_present(outcomes) == flatten_present(init) + c);
                assert(s.accumulated + flatten_present(init) + c =~= s.accumulated + (
                flatten_present(init) + c));
                if !prev.0.armed {
                    assert(prev.0.accumulated =~= Seq::<T>::empty());
                    assert(flatten_present(run.1) == flatten_present(prev.1) + c);
                    assert(flatten_present(prev.1) + c + Seq::<T>::empty() =~= flatten_present(
                        prev.1) + Seq::<T>::empty() + c);
                } else if (prev.0.accumulated + c).len() >= prev.0.target {
                    assert(flatten_present(run.1) == flatten_present(prev.1) + (prev.0.accumulated
                        + c));
                    assert(flatten_present(prev.1) + (prev.0.accumulated + c) + Seq::<T>::empty()
                        =~= flatten_present(prev.1) + prev.0.accumulated + c);
                } else {
                    assert(flatten_present(run.1) =~= flatten_present(prev.1));
                    assert(flatten_present(prev.1) + (prev.0.accumulated + c) =~= flatten_present(
                        prev.1) + prev.0.accumulated + c);
                }
            },
            None => {
                assert(flatten_present(run.1) =~= flatten_present(prev.1));
                assert(flatten_present(outcomes) =~= flatten_present(init));
            },
        }
    } else {
        assert(flatten_present(primer_run(s, outcomes).1) + s.accumulated =~= s.accumulated
            + flatten_present(outcomes));
    }
}

/// What a freshly armed primer's state is after a run of decode outcomes.
proof fn lemma_fresh_state<T>(target: nat, outcomes: Seq<Option<Seq<T>>>)
    ensures
        ({
            let st = primer_run(fresh_model::<T>(target), outcomes).0;
            let gathered = flatten_present(outcomes);
            &&& st.target == target
            &&& !st.armed ==> st.accumulated.len() == 0
            &&& st.armed ==> st.accumulated == gathered
            &&& st.armed ==> gathered.len() < target || gathered.len() == 0
            &&& gathered.len() < target ==> st.armed
        }),
    decreases outcomes.len(),
{
    if outcomes.len() > 0 {
        lemma_fresh_state::<T>(target, outcomes.drop_last());
    }
}

/// The primer releases exactly once: starting armed and empty, the step that
/// feeds a chunk hands over nothing while the successful outputs so far stay
/// below the target; at the step where they first reach it, it hands over
/// everything gathered as one batch; afterwards it hands over each chunk on
/// its own. A failed chunk hands over nothing.
pub proof fn lemma_release_once<T>(target: nat, outcomes: Seq<Option<Seq<T>>>)
    requires
        outcomes.len() > 0,
    ensures
        ({
            let out = primer_run(fresh_model::<T>(target), outcomes).1.last();
            let before = flatten_present(outcomes.drop_last()).len();
            let after = flatten_present(outcomes).len();
            match outcomes.last() {
                None => out.is_none(),
                Some(c) => {
                    &&& after < target ==> out.is_none()
                    &&& before < target <= after ==> out == Some(flatten_present(outcomes))
                    &&& target <= before ==> out == Some(c)
                },
            }
        }),
{
    let init = outcomes.drop_last();
    lemma_fresh_state::<T>(target, init);
    let prev = primer_run(fresh_model::<T>(target), init).0;
    match outcomes.last() {
        Some(c) => {
            if prev.armed {
                assert(prev.accumulated + c == flatten_present(outcomes));
                if target <= flatten_present(init).len() {
                    assert(prev.accumulated + c =~= c);
                }
            }
        },
        None => {},
    }
}

} // verus!
