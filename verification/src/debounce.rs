//! Debouncing of the AC-power status: a changed reading is acted on only
//! after it has persisted continuously for the debounce window; a single
//! reversal within the window cancels the pending transition.

use vstd::prelude::*;

verus! {

/// Minimum continuous duration, in time units, a changed AC status must
/// persist before it is confirmed.
pub const DEBOUNCE_WINDOW: u64 = 6;

/// A transition waiting to be confirmed: the candidate status and the time
/// it was first observed.
#[derive(Clone, Copy, Debug)]
pub struct Pending {
    /// The status that differed from the stable one.
    pub candidate: bool,
    /// The time of the first observation of the candidate.
    pub since: u64,
}

/// The debouncer: the last confirmed AC status, and the pending transition
/// if a change is currently being watched.
#[derive(Clone, Copy, Debug)]
pub struct Debouncer {
    /// The confirmed status; `true` means AC online.
    pub stable: bool,
    /// The unconfirmed change being watched, if any.
    pub pending: Option<Pending>,
}

/// One debouncing step: the next debouncer state and the confirmed new
/// status, if this observation confirms one.
///
/// An observation equal to the stable status keeps (or returns to) the
/// stable state, discarding any pending transition as a transient flicker.
/// A differing observation opens a pending transition at the current time,
/// and confirms it once the same candidate has been pending for at least
/// the debounce window.
pub open spec fn spec_poll(d: Debouncer, observed: bool, now: u64) -> (Debouncer, Option<bool>) {
    if observed == d.stable {
        (Debouncer { stable: d.stable, pending: None }, None)
    } else {
        match d.pending {
            None => (
                (Debouncer {
                    stable: d.stable,
                    pending: Some(Pending { candidate: observed, since: now }),
                }),
                None,
            ),
            Some(p) => {
                if p.candidate == observed {
                    if now >= p.since + DEBOUNCE_WINDOW {
                        ((Debouncer { stable: observed, pending: None }), Some(observed))
                    } else {
                        (d, None)
                    }
                } else {
                    (
                        (Debouncer {
                            stable: d.stable,
                            pending: Some(Pending { candidate: observed, since: now }),
                        }),
                        None,
                    )
                }
            },
        }
    }
}

impl Debouncer {
    /// A debouncer whose baseline is the status read at startup; no
    /// transition is considered yet.
    pub fn new(initial: bool) -> (d: Debouncer)
        ensures
            d.stable == initial,
            d.pending is None,
    {
        Debouncer { stable: initial, pending: None }
    }

    /// Feed one observation taken at time `now` into the debouncer.
    /// Returns the newly confirmed status when this observation confirms a
    /// transition, and `None` otherwise.
    pub fn poll(&mut self, observed: bool, now: u64) -> (confirmed: Option<bool>)
        ensures
            *final(self) == spec_poll(*old(self), observed, now).0,
            confirmed == spec_poll(*old(self), observed, now).1,
    {
        if observed == self.stable {
            self.pending = None;
            None
        } else {
            match self.pending {
                None => {
                    self.pending = Some(Pending { candidate: observed, since: now });
                    None
                },
                Some(p) => {
                    if p.candidate == observed {
                        if now >= p.since && now - p.since >= DEBOUNCE_WINDOW {
                            self.stable = observed;
                            self.pending = None;
                            Some(observed)
                        } else {
                            None
                        }
                    } else {
                        self.pending = Some(Pending { candidate: observed, since: now });
                        None
                    }
                },
            }
        }
    }
}

/// The debouncer state after a whole trace of observations, each a pair of
/// the observed status and the time of the observation.
pub open spec fn spec_run(d: Debouncer, trace: Seq<(bool, u64)>) -> Debouncer
    decreases trace.len(),
{
    if trace.len() == 0 {
        d
    } else {
        spec_poll(spec_run(d, trace.drop_last()), trace.last().0, trace.last().1).0
    }
}

/// Every observation from position `j` onward reads the status `c`.
pub open spec fn spec_held_from(trace: Seq<(bool, u64)>, j: int, c: bool) -> bool {
    forall|k: int| j <= k < trace.len() ==> (#[trigger] trace[k]).0 == c
}

/// A confirmation only ever happens out of a pending transition whose
/// candidate is the observed status and whose first observation lies at
/// least the debounce window in the past.
pub proof fn lemma_confirm_only_after_window(d: Debouncer, observed: bool, now: u64)
    ensures
        spec_poll(d, observed, now).1 is Some ==> (d.pending matches Some(p) && observed
            == p.candidate && now >= p.since + DEBOUNCE_WINDOW && spec_poll(d, observed, now).1
            == Some(observed)),
{
}

/// A single reversal to the stable status cancels the pending transition:
/// the debouncer returns to its stable state and confirms nothing.
pub proof fn lemma_reversal_cancels(d: Debouncer, now: u64)
    ensures
        spec_poll(d, d.stable, now).0.stable == d.stable,
        spec_poll(d, d.stable, now).0.pending is None,
        spec_poll(d, d.stable, now).1 is None,
{
}

/// A pending transition always records an actual observation: its candidate
/// was observed at its start time, and every observation since then has
/// read the candidate.
proof fn lemma_pending_provenance(d: Debouncer, trace: Seq<(bool, u64)>)
    requires
        d.pending is None,
    ensures
        spec_run(d, trace).pending matches Some(p) ==> exists|j: int|
            0 <= j < trace.len() && (#[trigger] trace[j]) == (p.candidate, p.since)
                && spec_held_from(trace, j, p.candidate),
    decreases trace.len(),
{
    if trace.len() > 0 {
        let t = trace.drop_last();
        let d1 = spec_run(d, t);
        let obs = trace.last().0;
        let nw = trace.last().1;
        lemma_pending_provenance(d, t);
        let d2 = spec_run(d, trace);
        if d2.pending is Some {
            let p = d2.pending->Some_0;
            if obs != d1.stable && (d1.pending matches Some(q) && obs == q.candidate && nw
                < q.since + DEBOUNCE_WINDOW) {
                // the pending transition survived this observation unchanged
                let j0 = choose|j: int|
                    0 <= j < t.len() && (#[trigger] t[j]) == (p.candidate, p.since)
                        && spec_held_from(t, j, p.candidate);
                assert(trace[j0] == (p.candidate, p.since));
                assert forall|k: int| j0 <= k < trace.len() implies (#[trigger] trace[k]).0
                    == p.candidate by {
                    if k < trace.len() - 1 {
                        assert(trace[k] == t[k]);
                    }
                }
                assert(spec_held_from(trace, j0, p.candidate));
            } else {
                // the pending transition was (re)opened by this observation
                let j0 = trace.len() - 1;
                assert(trace[j0] == (p.candidate, p.since));
                assert(spec_held_from(trace, j0, p.candidate));
            }
        }
    }
}

/// The debouncer never confirms early: whenever an observation confirms a
/// status, that status has been read continuously since an observation at
/// least the debounce window in the past.  Started from a freshly
/// initialized debouncer and run over any trace of observations, a
/// confirmation of `observed` at time `now` yields a position `j` in the
/// trace that read `observed`, lies at least `DEBOUNCE_WINDOW` before
/// `now`, and after which every observation read `observed`.
pub proof fn lemma_never_confirms_early(
    init: Debouncer,
    trace: Seq<(bool, u64)>,
    observed: bool,
    now: u64,
)
    requires
        init.pending is None,
        spec_poll(spec_run(init, trace), observed, now).1 is Some,
    ensures
        spec_poll(spec_run(init, trace), observed, now).1 == Some(observed),
        exists|j: int|
            0 <= j < trace.len() && now >= (#[trigger] trace[j]).1 + DEBOUNCE_WINDOW && trace[j].0
                == observed && spec_held_from(trace, j, observed),
{
    let d1 = spec_run(init, trace);
    lemma_confirm_only_after_window(d1, observed, now);
    lemma_pending_provenance(init, trace);
    let p = d1.pending->Some_0;
    let j0 = choose|j: int|
        0 <= j < trace.len() && (#[trigger] trace[j]) == (p.candidate, p.since) && spec_held_from(
            trace,
            j,
            p.candidate,
        );
    assert(0 <= j0 < trace.len() && now >= trace[j0].1 + DEBOUNCE_WINDOW && trace[j0].0 == observed
        && spec_held_from(trace, j0, observed));
}

} // verus!
