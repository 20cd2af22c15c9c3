//! The supervisory control loop's per-tick decision: feed the AC status
//! through the debouncer, auto-select a level on a confirmed transition,
//! and decide whether the requested level must be (re-)applied.

use vstd::prelude::*;
use crate::debounce::{Debouncer, spec_poll};
use crate::level::PowerLevel;

verus! {

/// Fixed interval between two ticks of the control loop, in time units.
pub const POLL_INTERVAL: u64 = 2;

/// The levels a confirmed AC transition auto-selects.  The mapping is a
/// configured table: the daemon picks one when it starts.
#[derive(Clone, Copy, Debug)]
pub struct AcPolicy {
    /// Level selected when AC power is confirmed online.
    pub online_level: PowerLevel,
    /// Level selected when AC power is confirmed offline.
    pub offline_level: PowerLevel,
}

/// The control loop's mutable state, carried from tick to tick.
#[derive(Clone, Copy, Debug)]
pub struct LoopCtx {
    /// The AC-status debouncer.
    pub debouncer: Debouncer,
    /// The level whose profile was applied last; `None` before the first
    /// application and after a tick that could not read the state file.
    pub last_applied: Option<PowerLevel>,
}

/// What one tick decides: the level to persist to the state file when an
/// AC transition was confirmed, and the level whose profile must be applied
/// to the control surface this tick.
#[derive(Clone, Copy, Debug, PartialEq, Eq)]
pub struct TickOutcome {
    /// `Some(l)`: write `l` to the state file (confirmed AC transition).
    pub set_state_file: Option<PowerLevel>,
    /// `Some(l)`: resolve `l` and ensure its targets on every group.
    pub apply: Option<PowerLevel>,
}

/// The level an AC status auto-selects under a policy table.
pub open spec fn spec_auto_level(pol: AcPolicy, online: bool) -> PowerLevel {
    if online {
        pol.online_level
    } else {
        pol.offline_level
    }
}

/// One tick of the control loop.  `level_read` is the level the state file
/// held at the start of the tick (`None` when it was unreadable or outside
/// the vocabulary).  A confirmed AC transition persists the auto-selected
/// level, which then stands in for the read one, since the loop would read
/// it back from the state file it just wrote.  The profile is applied
/// whenever the effective level exists and differs from the last-applied
/// one — in particular always on the first tick.
pub open spec fn spec_tick(
    ctx: LoopCtx,
    pol: AcPolicy,
    ac_observed: bool,
    level_read: Option<PowerLevel>,
    now: u64,
) -> (LoopCtx, TickOutcome) {
    let step = spec_poll(ctx.debouncer, ac_observed, now);
    let set_state_file = match step.1 {
        Some(online) => Some(spec_auto_level(pol, online)),
        None => None,
    };
    let effective = if set_state_file is Some {
        set_state_file
    } else {
        level_read
    };
    let apply = if effective is Some && effective != ctx.last_applied {
        effective
    } else {
        None
    };
    (
        (LoopCtx { debouncer: step.0, last_applied: effective }),
        (TickOutcome { set_state_file, apply }),
    )
}

/// Run one tick: update the loop state in place and return what the tick
/// decided.
pub fn tick(
    ctx: &mut LoopCtx,
    pol: &AcPolicy,
    ac_observed: bool,
    level_read: Option<PowerLevel>,
    now: u64,
) -> (o: TickOutcome)
    ensures
        *final(ctx) == spec_tick(*old(ctx), *pol, ac_observed, level_read, now).0,
        o == spec_tick(*old(ctx), *pol, ac_observed, level_read, now).1,
{
    let confirmed = ctx.debouncer.poll(ac_observed, now);
    let set_state_file = match confirmed {
        Some(online) => Some(
            if online {
                pol.online_level
            } else {
                pol.offline_level
            },
        ),
        None => None,
    };
    let effective = match set_state_file {
        Some(l) => Some(l),
        None => level_read,
    };
    let apply = match effective {
        Some(l) => match ctx.last_applied {
            Some(prev) => if l == prev {
                None
            } else {
                Some(l)
            },
            None => Some(l),
        },
        None => None,
    };
    ctx.last_applied = effective;
    TickOutcome { set_state_file, apply }
}

/// On the daemon's first tick nothing counts as last-applied, so a readable
/// state file always has its level applied, whatever the level is and
/// whatever the tick otherwise decides.
pub proof fn lemma_first_tick_applies(
    ctx: LoopCtx,
    pol: AcPolicy,
    ac_observed: bool,
    level_read: Option<PowerLevel>,
    now: u64,
)
    requires
        ctx.last_applied is None,
        level_read is Some,
    ensures
        spec_tick(ctx, pol, ac_observed, level_read, now).1.apply is Some,
{
}

} // verus!
