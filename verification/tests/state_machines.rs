use tiger_delta::atomic_core::{
    ResonancePhase, CRITICAL_DRIFT_FIXED, EXTREME_DRIFT_FIXED, PHASE_COUNT,
};
use tiger_delta::lagrange::{
    LagrangeZone, ZONE_ENTER_MAX, ZONE_ENTER_MIN, ZONE_EXIT_MAX, ZONE_EXIT_MIN,
};
use tiger_delta::lumis::{RestCycle, QUIET_STREAK};

#[test]
fn rest_mode_needs_a_full_quiet_streak() {
    let mut c = RestCycle::new();
    for _ in 0..QUIET_STREAK {
        c.note(true);
        assert!(!c.is_resting());
    }
    c.note(true);
    assert!(c.is_resting());
    assert_eq!(c.rest_ticks, QUIET_STREAK + 1);
}

#[test]
fn one_loud_tick_clears_rest_mode_at_once() {
    let mut c = RestCycle::new();
    for _ in 0..QUIET_STREAK + 10 {
        c.note(true);
    }
    assert!(c.is_resting());
    c.note(false);
    assert!(!c.is_resting());
    assert_eq!(c.rest_ticks, 0);
    // The streak restarts from scratch.
    c.note(true);
    assert!(!c.is_resting());
    assert_eq!(c.rest_ticks, 1);
}

#[test]
fn rest_mode_persists_while_quiet_continues() {
    let mut c = RestCycle::new();
    for _ in 0..QUIET_STREAK + 1 {
        c.note(true);
    }
    for _ in 0..50 {
        c.note(true);
        assert!(c.is_resting());
    }
}

#[test]
fn tick_counter_advances_every_note() {
    let mut c = RestCycle::new();
    c.note(true);
    c.note(false);
    c.note(true);
    assert_eq!(c.tick, 3);
}

#[test]
fn phase_advances_only_under_extreme_drift() {
    let mut p = ResonancePhase::new();
    assert!(!p.rebalance(CRITICAL_DRIFT_FIXED));
    assert!(!p.is_critical);
    assert_eq!(p.mutation_phase, 0);

    assert!(!p.rebalance(CRITICAL_DRIFT_FIXED + 1));
    assert!(p.is_critical);
    assert_eq!(p.mutation_phase, 0);

    assert!(p.rebalance(EXTREME_DRIFT_FIXED + 1));
    assert!(p.is_critical);
    assert_eq!(p.mutation_phase, 1);

    assert!(p.rebalance(-(EXTREME_DRIFT_FIXED + 1)));
    assert_eq!(p.mutation_phase, 2);

    assert!(!p.rebalance(0));
    assert!(!p.is_critical);
    assert_eq!(p.mutation_phase, 2);
}

#[test]
fn phase_cycles_through_all_seven_values() {
    let mut p = ResonancePhase::new();
    for expected in 1..=PHASE_COUNT {
        p.rebalance(EXTREME_DRIFT_FIXED + 1);
        assert_eq!(p.mutation_phase, expected % PHASE_COUNT);
        assert!(p.mutation_phase < PHASE_COUNT);
    }
    assert_eq!(p.mutation_phase, 0);
}

#[test]
fn zone_is_entered_only_through_the_enter_band() {
    let mut z = LagrangeZone::new();
    // Below the enter band: still outside, the deviation is reported.
    assert_eq!(z.classify(ZONE_ENTER_MIN - 1), Some(ZONE_ENTER_MIN - 1));
    assert!(!z.in_zone);
    // Inside the enter band: the zone is entered, nothing reported.
    let mid = (ZONE_EXIT_MIN + ZONE_EXIT_MAX) / 2;
    assert_eq!(z.classify(mid), None);
    assert!(z.in_zone);
}

#[test]
fn zone_is_left_only_outside_the_exit_band() {
    let mut z = LagrangeZone::new();
    let mid = (ZONE_EXIT_MIN + ZONE_EXIT_MAX) / 2;
    assert_eq!(z.classify(mid), None);
    // Values wobbling inside the exit band never toggle the zone.
    assert_eq!(z.classify(ZONE_EXIT_MIN), None);
    assert_eq!(z.classify(ZONE_EXIT_MAX), None);
    assert!(z.in_zone);
    // A value beyond the exit band leaves the zone and is reported.
    assert_eq!(z.classify(ZONE_ENTER_MAX + 1), Some(ZONE_ENTER_MAX + 1));
    assert!(!z.in_zone);
    // Once out, a value outside the enter band keeps it out.
    assert_eq!(z.classify(ZONE_ENTER_MAX + 1), Some(ZONE_ENTER_MAX + 1));
    assert!(!z.in_zone);
}

#[test]
fn ring_between_the_bands_reenters_after_leaving() {
    // A value inside the enter band but outside the nested exit band enters
    // the zone and leaves it again on the very next observation: each toggle
    // is band-justified, entering through the enter band and leaving because
    // the value sits outside the exit band.
    let ring = ZONE_ENTER_MIN + 1;
    assert!(ring < ZONE_EXIT_MIN);
    let mut z = LagrangeZone::new();
    assert_eq!(z.classify(ring), None);
    assert!(z.in_zone);
    assert_eq!(z.classify(ring), Some(ring));
    assert!(!z.in_zone);
}
