use scene_control::bloom::{bloom_tick, BloomKeyState, BloomParameters, CompositeMode};
use scene_control::display::summary;
use scene_control::fixed::UNIT;

const SECOND: i64 = 1_000_000;

#[test]
fn default_values() {
    let p = BloomParameters::default();
    assert_eq!(p.intensity, 150_000);
    assert_eq!(p.low_frequency_boost, 700_000);
    assert_eq!(p.low_frequency_boost_curvature, 950_000);
    assert_eq!(p.high_pass_frequency, 1_000_000);
    assert_eq!(p.composite_mode, CompositeMode::EnergyConserving);
    assert_eq!(p.prefilter_threshold, 0);
    assert_eq!(p.prefilter_threshold_softness, 0);
}

#[test]
fn held_key_steps_by_a_tenth_of_the_tick() {
    let mut p = BloomParameters::default();
    let mut k = BloomKeyState::default();
    k.intensity_up = true;
    p.step(&k, SECOND);
    assert_eq!(p.intensity, 250_000);
    // The other fields are untouched.
    assert_eq!(p.low_frequency_boost, 700_000);
}

#[test]
fn increment_clamps_at_one() {
    let mut p = BloomParameters::default();
    let mut k = BloomKeyState::default();
    k.intensity_up = true;
    for _ in 0..20 {
        p.step(&k, SECOND);
    }
    assert_eq!(p.intensity, UNIT);
    // Once at the top, further increments change nothing.
    p.step(&k, SECOND);
    assert_eq!(p.intensity, UNIT);
}

#[test]
fn decrement_at_minimum_stays_at_minimum() {
    let mut p = BloomParameters::default();
    p.prefilter_threshold = 0;
    p.prefilter_threshold_softness = 0;
    let mut k = BloomKeyState::default();
    k.threshold_down = true;
    k.softness_down = true;
    p.step(&k, SECOND);
    assert_eq!(p.prefilter_threshold, 0);
    assert_eq!(p.prefilter_threshold_softness, 0);
}

#[test]
fn opposing_editor_keys_cancel() {
    let mut p = BloomParameters::default();
    let mut k = BloomKeyState::default();
    k.boost_up = true;
    k.boost_down = true;
    p.step(&k, SECOND);
    assert_eq!(p.low_frequency_boost, 700_000);
}

#[test]
fn threshold_moves_by_the_full_tick_and_past_one() {
    let mut p = BloomParameters::default();
    let mut k = BloomKeyState::default();
    k.threshold_up = true;
    p.step(&k, 3 * SECOND);
    assert_eq!(p.prefilter_threshold, 3 * SECOND);
    // The threshold has no upper clamp short of the machine maximum.
    assert!(p.prefilter_threshold > UNIT);
}

#[test]
fn mode_keys_select_the_mode() {
    let mut p = BloomParameters::default();
    let mut k = BloomKeyState::default();
    k.additive = true;
    p.step(&k, 0);
    assert_eq!(p.composite_mode, CompositeMode::Additive);
    let mut k2 = BloomKeyState::default();
    k2.energy_conserving = true;
    p.step(&k2, 0);
    assert_eq!(p.composite_mode, CompositeMode::EnergyConserving);
}

#[test]
fn both_mode_keys_prefer_energy_conserving() {
    let mut p = BloomParameters::default();
    p.composite_mode = CompositeMode::Additive;
    let mut k = BloomKeyState::default();
    k.energy_conserving = true;
    k.additive = true;
    p.step(&k, 0);
    assert_eq!(p.composite_mode, CompositeMode::EnergyConserving);
}

#[test]
fn toggle_removes_and_reinstates_defaults() {
    let mut state = Some(BloomParameters::default());
    // Drift a field away from its default first.
    let mut up = BloomKeyState::default();
    up.intensity_up = true;
    state = bloom_tick(state, &up, SECOND);
    assert_eq!(state.unwrap().intensity, 250_000);

    let mut toggle = BloomKeyState::default();
    toggle.toggle = true;
    let off = bloom_tick(state, &toggle, SECOND);
    assert!(off.is_none());
    let on = bloom_tick(off, &toggle, SECOND);
    assert_eq!(on, Some(BloomParameters::default()));
}

#[test]
fn tick_without_block_does_nothing() {
    let mut up = BloomKeyState::default();
    up.intensity_up = true;
    assert_eq!(bloom_tick(None, &up, SECOND), None);
}

#[test]
fn every_field_stays_in_range_under_held_keys() {
    let mut p = BloomParameters::default();
    let mut k = BloomKeyState::default();
    k.intensity_up = true;
    k.boost_down = true;
    k.curvature_up = true;
    k.high_pass_down = true;
    k.threshold_down = true;
    k.softness_up = true;
    for _ in 0..50 {
        p.step(&k, SECOND);
        assert!(0 <= p.intensity && p.intensity <= UNIT);
        assert!(0 <= p.low_frequency_boost && p.low_frequency_boost <= UNIT);
        assert!(0 <= p.low_frequency_boost_curvature && p.low_frequency_boost_curvature <= UNIT);
        assert!(0 <= p.high_pass_frequency && p.high_pass_frequency <= UNIT);
        assert!(0 <= p.prefilter_threshold);
        assert!(0 <= p.prefilter_threshold_softness && p.prefilter_threshold_softness <= UNIT);
    }
    assert_eq!(p.intensity, UNIT);
    assert_eq!(p.low_frequency_boost, 0);
}

#[test]
fn summary_of_the_defaults() {
    let p = BloomParameters::default();
    let text = summary(&p);
    assert_eq!(
        text,
        "intensity: 0.150000\n\
         low_frequency_boost: 0.700000\n\
         low_frequency_boost_curvature: 0.950000\n\
         high_pass_frequency: 1.000000\n\
         composite_mode: energy-conserving\n\
         prefilter_threshold: 0.000000\n\
         prefilter_threshold_softness: 0.000000\n"
    );
}

#[test]
fn summary_tracks_the_current_values() {
    let mut p = BloomParameters::default();
    p.composite_mode = CompositeMode::Additive;
    p.intensity = UNIT;
    p.prefilter_threshold = 2_500_000;
    let text = summary(&p);
    assert!(text.contains("intensity: 1.000000\n"));
    assert!(text.contains("composite_mode: additive\n"));
    assert!(text.contains("prefilter_threshold: 2.500000\n"));
}
