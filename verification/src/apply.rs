//! Resolving a power level into the sequence of control-point targets and
//! applying them through the apply-on-change discipline, together with the
//! discipline's idempotence: re-applying a level issues no write.

use vstd::prelude::*;
use crate::level::PowerLevel;
use crate::policy::{HwBounds, LevelProfile, spec_profile_for, profile_for};
use crate::store::{ControlPoint, ControlValue, StoreModel};

verus! {

/// The targets one hardware policy group receives for a profile.
pub open spec fn spec_group_writes(p: LevelProfile, g: u64) -> Seq<(ControlPoint, ControlValue)> {
    seq![
        (ControlPoint::ScalingMinFreq { group: g }, ControlValue::Freq(p.min_freq)),
        (ControlPoint::ScalingMaxFreq { group: g }, ControlValue::Freq(p.max_freq)),
        (ControlPoint::EnergyPerfPref { group: g }, ControlValue::Pref(p.energy_pref)),
    ]
}

/// The per-group targets for a profile, over all policy groups in order.
pub open spec fn spec_groups_writes(p: LevelProfile, groups: Seq<u64>) -> Seq<
    (ControlPoint, ControlValue),
>
    decreases groups.len(),
{
    if groups.len() == 0 {
        Seq::empty()
    } else {
        spec_groups_writes(p, groups.drop_last()) + spec_group_writes(p, groups.last())
    }
}

/// Everything applying a profile targets: each group's scaling bounds and
/// preference, then the global turbo switch.
pub open spec fn spec_desired_writes(p: LevelProfile, groups: Seq<u64>) -> Seq<
    (ControlPoint, ControlValue),
> {
    spec_groups_writes(p, groups) + seq![(ControlPoint::NoTurbo, ControlValue::Turbo(p.turbo_disabled))]
}

/// The value a profile targets at a given point.
pub open spec fn spec_point_target(pt: ControlPoint, p: LevelProfile) -> ControlValue {
    match pt {
        ControlPoint::ScalingGovernor { .. } => ControlValue::GovernorPowersave,
        ControlPoint::ScalingMinFreq { .. } => ControlValue::Freq(p.min_freq),
        ControlPoint::ScalingMaxFreq { .. } => ControlValue::Freq(p.max_freq),
        ControlPoint::EnergyPerfPref { .. } => ControlValue::Pref(p.energy_pref),
        ControlPoint::NoTurbo => ControlValue::Turbo(p.turbo_disabled),
    }
}

/// Build the target list for a profile over the given policy groups.
pub fn desired_writes(p: &LevelProfile, groups: &Vec<u64>) -> (r: Vec<(ControlPoint, ControlValue)>)
    ensures
        r@ == spec_desired_writes(*p, groups@),
{
    let mut r: Vec<(ControlPoint, ControlValue)> = Vec::new();
    let mut i: usize = 0;
    proof {
        assert(groups@.take(0) =~= Seq::<u64>::empty());
        assert(r@ =~= spec_groups_writes(*p, groups@.take(0)));
    }
    while i < groups.len()
        invariant
            i <= groups@.len(),
            r@ == spec_groups_writes(*p, groups@.take(i as int)),
        decreases groups@.len() - i,
    {
        let ghost prev = r@;
        let g = groups[i];
        r.push((ControlPoint::ScalingMinFreq { group: g }, ControlValue::Freq(p.min_freq)));
        r.push((ControlPoint::ScalingMaxFreq { group: g }, ControlValue::Freq(p.max_freq)));
        r.push((ControlPoint::EnergyPerfPref { group: g }, ControlValue::Pref(p.energy_pref)));
        proof {
            assert(groups@.take(i as int + 1).drop_last() =~= groups@.take(i as int));
            assert(groups@.take(i as int + 1).last() == groups@[i as int]);
            assert(r@ =~= prev + spec_group_writes(*p, g));
        }
        i = i + 1;
    }
    proof {
        assert(groups@.take(groups@.len() as int) =~= groups@);
    }
    let ghost before_turbo = r@;
    r.push((ControlPoint::NoTurbo, ControlValue::Turbo(p.turbo_disabled)));
    proof {
        assert(r@ =~= before_turbo + seq![
            (ControlPoint::NoTurbo, ControlValue::Turbo(p.turbo_disabled)),
        ]);
    }
    r
}

/// The governor targets written once at startup: `powersave` on each group.
pub open spec fn spec_governor_writes(groups: Seq<u64>) -> Seq<(ControlPoint, ControlValue)>
    decreases groups.len(),
{
    if groups.len() == 0 {
        Seq::empty()
    } else {
        spec_governor_writes(groups.drop_last()) + seq![
            (
                ControlPoint::ScalingGovernor { group: groups.last() },
                ControlValue::GovernorPowersave,
            ),
        ]
    }
}

/// Build the startup governor targets for the given policy groups.
pub fn governor_writes(groups: &Vec<u64>) -> (r: Vec<(ControlPoint, ControlValue)>)
    ensures
        r@ == spec_governor_writes(groups@),
{
    let mut r: Vec<(ControlPoint, ControlValue)> = Vec::new();
    let mut i: usize = 0;
    proof {
        assert(groups@.take(0) =~= Seq::<u64>::empty());
        assert(r@ =~= spec_governor_writes(groups@.take(0)));
    }
    while i < groups.len()
        invariant
            i <= groups@.len(),
            r@ == spec_governor_writes(groups@.take(i as int)),
        decreases groups@.len() - i,
    {
        let ghost prev = r@;
        let g = groups[i];
        r.push((ControlPoint::ScalingGovernor { group: g }, ControlValue::GovernorPowersave));
        proof {
            assert(groups@.take(i as int + 1).drop_last() =~= groups@.take(i as int));
            assert(groups@.take(i as int + 1).last() == groups@[i as int]);
            assert(r@ =~= prev + seq![
                (ControlPoint::ScalingGovernor { group: g }, ControlValue::GovernorPowersave),
            ]);
        }
        i = i + 1;
    }
    proof {
        assert(groups@.take(groups@.len() as int) =~= groups@);
    }
    r
}

/// The store contents after a sequence of targets is ensured in order.
pub open spec fn spec_apply_seq(
    m: Map<ControlPoint, ControlValue>,
    s: Seq<(ControlPoint, ControlValue)>,
) -> Map<ControlPoint, ControlValue>
    decreases s.len(),
{
    if s.len() == 0 {
        m
    } else {
        spec_apply_seq(m, s.drop_last()).insert(s.last().0, s.last().1)
    }
}

/// Whether a store already holds a target pair.
pub open spec fn spec_holds(m: Map<ControlPoint, ControlValue>, e: (ControlPoint, ControlValue)) -> bool {
    m.contains_key(e.0) && m[e.0] == e.1
}

/// How many writes the apply-on-change discipline issues when the targets
/// are ensured in order against a store: one for each target the store does
/// not already hold at that moment.
pub open spec fn spec_write_count(
    m: Map<ControlPoint, ControlValue>,
    s: Seq<(ControlPoint, ControlValue)>,
) -> nat
    decreases s.len(),
{
    if s.len() == 0 {
        0
    } else {
        spec_write_count(m, s.drop_last()) + (if spec_holds(
            spec_apply_seq(m, s.drop_last()),
            s.last(),
        ) {
            0nat
        } else {
            1nat
        })
    }
}

/// Ensure every target in order through the apply-on-change discipline.
/// Returns the number of writes actually issued.
pub fn apply_writes(store: &mut StoreModel, writes: &Vec<(ControlPoint, ControlValue)>) -> (n:
    usize)
    ensures
        final(store)@ == spec_apply_seq(old(store)@, writes@),
        n == spec_write_count(old(store)@, writes@),
{
    let mut n: usize = 0;
    let mut i: usize = 0;
    proof {
        assert(writes@.take(0) =~= Seq::<(ControlPoint, ControlValue)>::empty());
    }
    while i < writes.len()
        invariant
            i <= writes@.len(),
            n <= i,
            store@ == spec_apply_seq(old(store)@, writes@.take(i as int)),
            n == spec_write_count(old(store)@, writes@.take(i as int)),
        decreases writes@.len() - i,
    {
        proof {
            assert(writes@.take(i as int + 1).drop_last() =~= writes@.take(i as int));
            assert(writes@.take(i as int + 1).last() == writes@[i as int]);
        }
        let e = writes[i];
        let wrote = store.ensure(e.0, e.1);
        if wrote {
            n = n + 1;
        }
        i = i + 1;
    }
    proof {
        assert(writes@.take(writes@.len() as int) =~= writes@);
    }
    n
}

/// Resolve a level against the bounds and ensure the resulting targets on
/// every policy group, through the apply-on-change discipline.  Returns the
/// number of writes actually issued.
pub fn apply_level(store: &mut StoreModel, l: PowerLevel, b: HwBounds, groups: &Vec<u64>) -> (n:
    usize)
    ensures
        final(store)@ == spec_apply_seq(
            old(store)@,
            spec_desired_writes(spec_profile_for(l, b), groups@),
        ),
        n == spec_write_count(old(store)@, spec_desired_writes(spec_profile_for(l, b), groups@)),
{
    let p = profile_for(l, b);
    let writes = desired_writes(&p, groups);
    apply_writes(store, &writes)
}

/// Target sequences never contradict themselves: every target carries the
/// value the profile assigns to its point, so two targets at the same point
/// carry the same value.
proof fn lemma_groups_writes_values(p: LevelProfile, groups: Seq<u64>)
    ensures
        forall|k: int|
            0 <= k < spec_groups_writes(p, groups).len() ==> (#[trigger] spec_groups_writes(
                p,
                groups,
            )[k]).1 == spec_point_target(spec_groups_writes(p, groups)[k].0, p),
    decreases groups.len(),
{
    if groups.len() > 0 {
        lemma_groups_writes_values(p, groups.drop_last());
    }
}

/// Every target of a profile carries the value the profile assigns to its
/// point.
proof fn lemma_desired_writes_values(p: LevelProfile, groups: Seq<u64>)
    ensures
        forall|k: int|
            0 <= k < spec_desired_writes(p, groups).len() ==> (#[trigger] spec_desired_writes(
                p,
                groups,
            )[k]).1 == spec_point_target(spec_desired_writes(p, groups)[k].0, p),
{
    lemma_groups_writes_values(p, groups);
}

/// After ensuring a self-consistent target sequence (equal points carry
/// equal values), the store holds every target of the sequence.
proof fn lemma_apply_holds_all(
    m: Map<ControlPoint, ControlValue>,
    s: Seq<(ControlPoint, ControlValue)>,
)
    requires
        forall|i: int, j: int|
            0 <= i < s.len() && 0 <= j < s.len() && (#[trigger] s[i]).0 == (#[trigger] s[j]).0
                ==> s[i].1 == s[j].1,
    ensures
        forall|k: int| 0 <= k < s.len() ==> spec_holds(spec_apply_seq(m, s), #[trigger] s[k]),
    decreases s.len(),
{
    if s.len() > 0 {
        let t = s.drop_last();
        assert(forall|i: int, j: int|
            0 <= i < t.len() && 0 <= j < t.len() && (#[trigger] t[i]).0 == (#[trigger] t[j]).0
                ==> t[i].1 == t[j].1);
        lemma_apply_holds_all(m, t);
        assert forall|k: int| 0 <= k < s.len() implies spec_holds(
            spec_apply_seq(m, s),
            #[trigger] s[k],
        ) by {
            if k < s.len() - 1 {
                assert(t[k] == s[k]);
                assert(spec_holds(spec_apply_seq(m, t), t[k]));
                if s[k].0 == s.last().0 {
                    assert(s[k].1 == s[s.len() - 1].1);
                }
            }
        }
    }
}

/// Ensuring targets a store already holds changes nothing and issues no
/// write.
proof fn lemma_apply_noop(m: Map<ControlPoint, ControlValue>, s: Seq<(ControlPoint, ControlValue)>)
    requires
        forall|k: int| 0 <= k < s.len() ==> spec_holds(m, #[trigger] s[k]),
    ensures
        spec_apply_seq(m, s) == m,
        spec_write_count(m, s) == 0,
    decreases s.len(),
{
    if s.len() > 0 {
        lemma_apply_noop(m, s.drop_last());
        assert(spec_holds(m, s[s.len() - 1]));
        assert(spec_apply_seq(m, s) =~= m);
    }
}

/// Apply-on-change is idempotent: once a level's targets have been applied,
/// applying the same level again leaves the store unchanged and issues zero
/// writes, whatever the store held before and whatever the policy groups
/// are.
pub proof fn lemma_apply_level_idempotent(
    m: Map<ControlPoint, ControlValue>,
    p: LevelProfile,
    groups: Seq<u64>,
)
    ensures
        spec_apply_seq(
            spec_apply_seq(m, spec_desired_writes(p, groups)),
            spec_desired_writes(p, groups),
        ) == spec_apply_seq(m, spec_desired_writes(p, groups)),
        spec_write_count(
            spec_apply_seq(m, spec_desired_writes(p, groups)),
            spec_desired_writes(p, groups),
        ) == 0,
{
    let d = spec_desired_writes(p, groups);
    lemma_desired_writes_values(p, groups);
    lemma_apply_holds_all(m, d);
    lemma_apply_noop(spec_apply_seq(m, d), d);
}

} // verus!
