use cpulevel::apply::{apply_level, desired_writes, governor_writes};
use cpulevel::debounce::Debouncer;
use cpulevel::level::PowerLevel;
use cpulevel::policy::{profile_for, EnergyPref, HwBounds};
use cpulevel::store::{should_write, ControlPoint, ControlValue, StoreModel};
use cpulevel::tick::{tick, AcPolicy, LoopCtx, TickOutcome};

fn bounds() -> HwBounds {
    HwBounds { min: 800, base: 2000, max: 4000 }
}

fn ac_policy() -> AcPolicy {
    AcPolicy { online_level: PowerLevel::Max, offline_level: PowerLevel::Mid }
}

#[test]
fn store_reads_observe_the_latest_write() {
    let mut store = StoreModel::new();
    let p = ControlPoint::NoTurbo;
    assert_eq!(store.get(p), None);
    store.set(p, ControlValue::Turbo(true));
    assert_eq!(store.get(p), Some(ControlValue::Turbo(true)));
    store.set(p, ControlValue::Turbo(false));
    assert_eq!(store.get(p), Some(ControlValue::Turbo(false)));
    assert_eq!(store.get(ControlPoint::ScalingMinFreq { group: 0 }), None);
}

#[test]
fn ensure_writes_only_on_change() {
    let mut store = StoreModel::new();
    let p = ControlPoint::ScalingMaxFreq { group: 0 };
    assert!(store.ensure(p, ControlValue::Freq(2000)));
    assert!(!store.ensure(p, ControlValue::Freq(2000)));
    assert!(store.ensure(p, ControlValue::Freq(4000)));
    assert_eq!(store.get(p), Some(ControlValue::Freq(4000)));
}

#[test]
fn applying_mid_writes_the_expected_targets() {
    // Scenario: bounds (min=800, base=2000, max=4000), level mid.
    let mut store = StoreModel::new();
    let groups = vec![0u64];
    let n = apply_level(&mut store, PowerLevel::Mid, bounds(), &groups);
    assert_eq!(n, 4);
    assert_eq!(
        store.get(ControlPoint::ScalingMinFreq { group: 0 }),
        Some(ControlValue::Freq(800))
    );
    assert_eq!(
        store.get(ControlPoint::ScalingMaxFreq { group: 0 }),
        Some(ControlValue::Freq(2000))
    );
    assert_eq!(store.get(ControlPoint::NoTurbo), Some(ControlValue::Turbo(true)));
    assert_eq!(
        store.get(ControlPoint::EnergyPerfPref { group: 0 }),
        Some(ControlValue::Pref(EnergyPref::BalancePower))
    );
}

#[test]
fn applying_max_plus_writes_the_expected_targets() {
    // Scenario: level max+ with the same bounds.
    let mut store = StoreModel::new();
    let groups = vec![0u64];
    apply_level(&mut store, PowerLevel::MaxPlus, bounds(), &groups);
    assert_eq!(
        store.get(ControlPoint::ScalingMinFreq { group: 0 }),
        Some(ControlValue::Freq(800))
    );
    assert_eq!(
        store.get(ControlPoint::ScalingMaxFreq { group: 0 }),
        Some(ControlValue::Freq(4000))
    );
    assert_eq!(store.get(ControlPoint::NoTurbo), Some(ControlValue::Turbo(false)));
    assert_eq!(
        store.get(ControlPoint::EnergyPerfPref { group: 0 }),
        Some(ControlValue::Pref(EnergyPref::Performance))
    );
}

#[test]
fn reapplying_a_level_issues_zero_writes() {
    let mut store = StoreModel::new();
    let groups = vec![0u64, 1u64];
    let first = apply_level(&mut store, PowerLevel::Max, bounds(), &groups);
    assert_eq!(first, 7);
    let second = apply_level(&mut store, PowerLevel::Max, bounds(), &groups);
    assert_eq!(second, 0);
}

#[test]
fn switching_levels_touches_only_what_differs() {
    let mut store = StoreModel::new();
    let groups = vec![0u64];
    apply_level(&mut store, PowerLevel::Max, bounds(), &groups);
    // max and max+ share the scaling bounds and the turbo setting; only the
    // preference differs.
    let n = apply_level(&mut store, PowerLevel::MaxPlus, bounds(), &groups);
    assert_eq!(n, 1);
}

#[test]
fn desired_writes_cover_every_group_and_the_turbo_switch() {
    let p = profile_for(PowerLevel::Mid, bounds());
    let groups = vec![0u64, 3u64];
    let writes = desired_writes(&p, &groups);
    assert_eq!(
        writes,
        vec![
            (ControlPoint::ScalingMinFreq { group: 0 }, ControlValue::Freq(800)),
            (ControlPoint::ScalingMaxFreq { group: 0 }, ControlValue::Freq(2000)),
            (
                ControlPoint::EnergyPerfPref { group: 0 },
                ControlValue::Pref(EnergyPref::BalancePower)
            ),
            (ControlPoint::ScalingMinFreq { group: 3 }, ControlValue::Freq(800)),
            (ControlPoint::ScalingMaxFreq { group: 3 }, ControlValue::Freq(2000)),
            (
                ControlPoint::EnergyPerfPref { group: 3 },
                ControlValue::Pref(EnergyPref::BalancePower)
            ),
            (ControlPoint::NoTurbo, ControlValue::Turbo(true)),
        ]
    );
}

#[test]
fn governor_writes_target_every_group() {
    let groups = vec![0u64, 1u64];
    assert_eq!(
        governor_writes(&groups),
        vec![
            (ControlPoint::ScalingGovernor { group: 0 }, ControlValue::GovernorPowersave),
            (ControlPoint::ScalingGovernor { group: 1 }, ControlValue::GovernorPowersave),
        ]
    );
}

#[test]
fn control_file_written_only_when_content_differs() {
    let current = String::from("2000");
    assert!(!should_write(Some(&current), "2000"));
    assert!(should_write(Some(&current), "4000"));
    assert!(should_write(None, "2000"));
}

#[test]
fn debouncer_ignores_a_flicker_within_the_window() {
    // AC status flips 0 -> 1 -> 0 within 3 time units (window is 6): the
    // flicker is discarded and nothing is confirmed.
    let mut d = Debouncer::new(false);
    assert_eq!(d.poll(true, 0), None);
    assert_eq!(d.poll(false, 2), None);
    assert_eq!(d.poll(false, 4), None);
    assert_eq!(d.poll(true, 6), None);
    assert!(d.stable == false);
}

#[test]
fn debouncer_confirms_a_change_held_for_the_window() {
    let mut d = Debouncer::new(false);
    assert_eq!(d.poll(true, 0), None);
    assert_eq!(d.poll(true, 2), None);
    assert_eq!(d.poll(true, 4), None);
    assert_eq!(d.poll(true, 6), Some(true));
    assert!(d.stable == true);
    assert_eq!(d.poll(true, 8), None);
}

#[test]
fn debouncer_never_confirms_before_the_window() {
    let mut d = Debouncer::new(true);
    assert_eq!(d.poll(false, 10), None);
    assert_eq!(d.poll(false, 15), None);
    assert_eq!(d.poll(false, 16), Some(false));
}

#[test]
fn debouncer_restarts_after_a_cancelled_transition() {
    let mut d = Debouncer::new(false);
    assert_eq!(d.poll(true, 0), None);
    assert_eq!(d.poll(false, 2), None);
    // the earlier observation no longer counts: the window restarts
    assert_eq!(d.poll(true, 4), None);
    assert_eq!(d.poll(true, 8), None);
    assert_eq!(d.poll(true, 10), Some(true));
}

#[test]
fn flicker_causes_no_state_file_write() {
    // AC status flips 0 -> 1 -> 0 within 3 time units (window is 6): no
    // tick asks for a state-file write.
    let pol = ac_policy();
    let mut ctx = LoopCtx { debouncer: Debouncer::new(false), last_applied: None };
    let lvl = Some(PowerLevel::Mid);
    let o0 = tick(&mut ctx, &pol, true, lvl, 0);
    assert_eq!(o0.set_state_file, None);
    let o1 = tick(&mut ctx, &pol, false, lvl, 2);
    assert_eq!(o1.set_state_file, None);
    let o2 = tick(&mut ctx, &pol, false, lvl, 4);
    assert_eq!(o2.set_state_file, None);
}

#[test]
fn held_ac_change_selects_the_online_level() {
    // Flipping 0 -> 1 and holding for at least 6 time units makes the loop
    // persist the AC-online level.
    let pol = ac_policy();
    let mut ctx = LoopCtx { debouncer: Debouncer::new(false), last_applied: None };
    let mut persisted = Some(PowerLevel::Mid);
    let mut confirmed_at: Option<u64> = None;
    for i in 0..5u64 {
        let now = 2 * i;
        let o = tick(&mut ctx, &pol, true, persisted, now);
        if let Some(l) = o.set_state_file {
            assert_eq!(l, PowerLevel::Max);
            assert_eq!(o.apply, Some(PowerLevel::Max));
            persisted = Some(l);
            confirmed_at = Some(now);
        }
    }
    assert_eq!(confirmed_at, Some(6));
    assert_eq!(persisted, Some(PowerLevel::Max));
}

#[test]
fn first_tick_applies_the_level_it_reads() {
    // With nothing applied yet, a tick that reads the freshly created
    // default level applies it, with no "last-applied" comparison in the
    // way.
    let pol = ac_policy();
    let mut ctx = LoopCtx { debouncer: Debouncer::new(true), last_applied: None };
    let o = tick(&mut ctx, &pol, true, Some(PowerLevel::Mid), 0);
    assert_eq!(
        o,
        TickOutcome { set_state_file: None, apply: Some(PowerLevel::Mid) }
    );
    // the next tick sees the same level and applies nothing
    let o2 = tick(&mut ctx, &pol, true, Some(PowerLevel::Mid), 2);
    assert_eq!(o2, TickOutcome { set_state_file: None, apply: None });
}

#[test]
fn level_change_between_ticks_is_applied() {
    let pol = ac_policy();
    let mut ctx = LoopCtx { debouncer: Debouncer::new(true), last_applied: None };
    tick(&mut ctx, &pol, true, Some(PowerLevel::Mid), 0);
    // the cycle command moved the persisted level
    let o = tick(&mut ctx, &pol, true, Some(PowerLevel::Max), 2);
    assert_eq!(o.apply, Some(PowerLevel::Max));
    // an unreadable state file applies nothing
    let o2 = tick(&mut ctx, &pol, true, None, 4);
    assert_eq!(o2.apply, None);
}
