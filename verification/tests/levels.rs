use cpulevel::cycler::cycle_target;
use cpulevel::level::{bootstrap_write, default_level, parse_level, PowerLevel};
use cpulevel::policy::{profile_for, EnergyPref, HwBounds};

fn bounds() -> HwBounds {
    HwBounds { min: 800, base: 2000, max: 4000 }
}

#[test]
fn names_parse_back() {
    let all = [
        PowerLevel::Fix,
        PowerLevel::Min,
        PowerLevel::Mid,
        PowerLevel::Max,
        PowerLevel::MaxPlus,
    ];
    for l in all {
        assert_eq!(parse_level(l.name()), Some(l));
    }
    assert_eq!(PowerLevel::Fix.name(), "fix");
    assert_eq!(PowerLevel::MaxPlus.name(), "max+");
}

#[test]
fn unknown_names_are_rejected() {
    assert_eq!(parse_level(""), None);
    assert_eq!(parse_level("MAX"), None);
    assert_eq!(parse_level("max "), None);
    assert_eq!(parse_level("turbo"), None);
}

#[test]
fn cycling_visits_the_whole_vocabulary() {
    // From any recognized level, cycling once per vocabulary entry returns
    // to the start.
    let all = [
        PowerLevel::Fix,
        PowerLevel::Min,
        PowerLevel::Mid,
        PowerLevel::Max,
        PowerLevel::MaxPlus,
    ];
    for start in all {
        let mut l = start;
        for step in 0..5 {
            l = l.next();
            if step < 4 {
                assert_ne!(l, start);
            }
        }
        assert_eq!(l, start);
    }
    assert_eq!(PowerLevel::Fix.next(), PowerLevel::Min);
    assert_eq!(PowerLevel::MaxPlus.next(), PowerLevel::Fix);
}

#[test]
fn cycle_command_advances_the_persisted_level() {
    assert_eq!(cycle_target(Some("fix")), PowerLevel::Min);
    assert_eq!(cycle_target(Some("min")), PowerLevel::Mid);
    assert_eq!(cycle_target(Some("mid")), PowerLevel::Max);
    assert_eq!(cycle_target(Some("max")), PowerLevel::MaxPlus);
    assert_eq!(cycle_target(Some("max+")), PowerLevel::Fix);
}

#[test]
fn cycle_command_from_unrecognized_text_lands_on_the_second_entry() {
    // An unrecognized value counts as index 0, then advances.
    assert_eq!(cycle_target(Some("nonsense")), PowerLevel::Min);
    assert_eq!(cycle_target(Some("")), PowerLevel::Min);
}

#[test]
fn cycle_command_from_unreadable_file_picks_the_default() {
    assert_eq!(cycle_target(None), PowerLevel::Mid);
    assert_eq!(default_level(), PowerLevel::Mid);
}

#[test]
fn profile_table_matches_the_design() {
    let b = bounds();

    let fix = profile_for(PowerLevel::Fix, b);
    assert_eq!(fix.min_freq, 2000);
    assert_eq!(fix.max_freq, 2000);
    assert!(fix.turbo_disabled);
    assert_eq!(fix.energy_pref, EnergyPref::BalancePower);

    let min = profile_for(PowerLevel::Min, b);
    assert_eq!(min.min_freq, 800);
    assert_eq!(min.max_freq, 800);
    assert!(min.turbo_disabled);
    assert_eq!(min.energy_pref, EnergyPref::BalancePower);

    let mid = profile_for(PowerLevel::Mid, b);
    assert_eq!(mid.min_freq, 800);
    assert_eq!(mid.max_freq, 2000);
    assert!(mid.turbo_disabled);
    assert_eq!(mid.energy_pref, EnergyPref::BalancePower);

    let max = profile_for(PowerLevel::Max, b);
    assert_eq!(max.min_freq, 800);
    assert_eq!(max.max_freq, 4000);
    assert!(!max.turbo_disabled);
    assert_eq!(max.energy_pref, EnergyPref::BalancePower);

    let maxp = profile_for(PowerLevel::MaxPlus, b);
    assert_eq!(maxp.min_freq, 800);
    assert_eq!(maxp.max_freq, 4000);
    assert!(!maxp.turbo_disabled);
    assert_eq!(maxp.energy_pref, EnergyPref::Performance);
}

#[test]
fn profiles_keep_bounds_ordered() {
    let b = bounds();
    let all = [
        PowerLevel::Fix,
        PowerLevel::Min,
        PowerLevel::Mid,
        PowerLevel::Max,
        PowerLevel::MaxPlus,
    ];
    for l in all {
        let p = profile_for(l, b);
        assert!(p.min_freq <= p.max_freq);
    }
}

#[test]
fn preference_names() {
    assert_eq!(EnergyPref::BalancePower.name(), "balance_power");
    assert_eq!(EnergyPref::Performance.name(), "performance");
}

#[test]
fn absent_state_file_is_created_with_the_default_level() {
    assert_eq!(bootstrap_write(false), Some(PowerLevel::Mid));
    assert_eq!(bootstrap_write(true), None);
}
