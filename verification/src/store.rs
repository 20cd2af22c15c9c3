//! The control store: the named points of the frequency-scaling control
//! surface, the values written to them, and an in-memory store model with
//! the apply-on-change write discipline (write only when the current
//! content differs from the target).

use vstd::prelude::*;
use crate::policy::EnergyPref;

verus! {

/// A writable point of the control surface.  The scaling points exist once
/// per hardware policy group; the turbo switch is global.
#[derive(Clone, Copy, Debug, PartialEq, Eq, Structural)]
pub enum ControlPoint {
    /// `policy<group>/scaling_governor`.
    ScalingGovernor { group: u64 },
    /// `policy<group>/scaling_min_freq`.
    ScalingMinFreq { group: u64 },
    /// `policy<group>/scaling_max_freq`.
    ScalingMaxFreq { group: u64 },
    /// `policy<group>/energy_performance_preference`.
    EnergyPerfPref { group: u64 },
    /// The global `no_turbo` switch.
    NoTurbo,
}

/// A value held at a control point.
#[derive(Clone, Copy, Debug, PartialEq, Eq, Structural)]
pub enum ControlValue {
    /// A frequency, written as its decimal text.
    Freq(u64),
    /// The turbo switch: `true` is written as `1`, `false` as `0`.
    Turbo(bool),
    /// An energy-performance preference, written as its name.
    Pref(EnergyPref),
    /// The `powersave` scaling governor.
    GovernorPowersave,
}

/// The apply-on-change decision for an external control file: write the
/// desired text exactly when the current content differs from it, where an
/// unreadable or absent file counts as empty rather than failing and so is
/// always written.
pub fn should_write(current: Option<&String>, desired: &str) -> (b: bool)
    ensures
        b == match current {
            Some(c) => c@ != desired@,
            None => true,
        },
{
    match current {
        None => true,
        Some(c) => {
            let d: String = desired.to_owned();
            !(*c == d)
        },
    }
}

/// The mapping an association sequence denotes: later entries override
/// earlier ones, as later writes override earlier writes.
pub open spec fn assoc_map(s: Seq<(ControlPoint, ControlValue)>) -> Map<
    ControlPoint,
    ControlValue,
>
    decreases s.len(),
{
    if s.len() == 0 {
        Map::empty()
    } else {
        assoc_map(s.drop_last()).insert(s.last().0, s.last().1)
    }
}

/// An in-memory control store.  It stands in for the external control
/// surface wherever the write discipline is exercised without hardware:
/// reads observe the latest write to each point, exactly as the surface's
/// contract promises.
pub struct StoreModel {
    entries: Vec<(ControlPoint, ControlValue)>,
}

impl View for StoreModel {
    type V = Map<ControlPoint, ControlValue>;

    closed spec fn view(&self) -> Map<ControlPoint, ControlValue> {
        assoc_map(self.entries@)
    }
}

impl StoreModel {
    /// A store with no point present: every read misses.
    pub fn new() -> (s: StoreModel)
        ensures
            s@ == Map::<ControlPoint, ControlValue>::empty(),
    {
        let s = StoreModel { entries: Vec::new() };
        proof {
            assert(s@ =~= Map::<ControlPoint, ControlValue>::empty());
        }
        s
    }

    /// Read the current content of a point; `None` when the point was never
    /// written (an absent control file).
    pub fn get(&self, p: ControlPoint) -> (r: Option<ControlValue>)
        ensures
            r == if self@.contains_key(p) {
                Some(self@[p])
            } else {
                None::<ControlValue>
            },
    {
        let ghost s = self.entries@;
        let mut i = self.entries.len();
        proof {
            assert(s.take(i as int) =~= s);
        }
        while i > 0
            invariant
                i <= s.len(),
                s == self.entries@,
                assoc_map(s).contains_key(p) <==> assoc_map(s.take(i as int)).contains_key(p),
                assoc_map(s).contains_key(p) ==> assoc_map(s)[p] == assoc_map(
                    s.take(i as int),
                )[p],
            decreases i,
        {
            i = i - 1;
            proof {
                assert(s.take(i as int + 1).drop_last() =~= s.take(i as int));
                assert(s.take(i as int + 1).last() == s[i as int]);
            }
            let e = self.entries[i];
            if e.0 == p {
                return Some(e.1);
            }
        }
        proof {
            assert(s.take(0) =~= Seq::<(ControlPoint, ControlValue)>::empty());
        }
        None
    }

    /// Write a value to a point unconditionally: afterwards the store maps
    /// the point to that value and every other point is unchanged.
    pub fn set(&mut self, p: ControlPoint, v: ControlValue)
        ensures
            final(self)@ == old(self)@.insert(p, v),
    {
        let ghost s = self.entries@;
        self.entries.push((p, v));
        proof {
            assert(self.entries@.drop_last() =~= s);
            assert(self.entries@.last() == (p, v));
        }
    }

    /// The apply-on-change discipline on one point: write the target value
    /// only when the current content differs from it (or the point is
    /// absent).  Returns whether a write was issued; afterwards the point
    /// holds the target either way.
    pub fn ensure(&mut self, p: ControlPoint, v: ControlValue) -> (wrote: bool)
        ensures
            final(self)@ == old(self)@.insert(p, v),
            wrote == !(old(self)@.contains_key(p) && old(self)@[p] == v),
    {
        let cur = self.get(p);
        let mut same = false;
        match cur {
            Some(c) => {
                if c == v {
                    same = true;
                }
            },
            None => {},
        }
        if same {
            proof {
                assert(old(self)@.insert(p, v) =~= old(self)@);
            }
            false
        } else {
            self.set(p, v);
            true
        }
    }
}

} // verus!
