use rsynth::oscillator::{Envlope, ADSR};
use rsynth::volume::UNIT;

fn standard() -> ADSR {
    // attack 0.1 s, decay 0.1 s, sustain 0.5, release 0.05 s
    ADSR::new(100_000, 100_000, 500_000, 50_000).unwrap()
}

#[test]
fn attack_ramps_linearly() {
    let env = standard();
    assert_eq!(env.get_envlope(0, None), 0);
    assert_eq!(env.get_envlope(25_000, None), 250_000);
    assert_eq!(env.get_envlope(99_999, None), 999_990);
    assert_eq!(env.get_envlope(100_000, None), UNIT);
}

#[test]
fn decay_interpolates_to_sustain() {
    let env = standard();
    assert_eq!(env.get_envlope(150_000, None), 750_000);
    assert_eq!(env.get_envlope(199_999, None), 500_005);
    assert_eq!(env.get_envlope(200_000, None), 500_000);
}

#[test]
fn sustain_holds_after_attack_and_decay() {
    let env = standard();
    assert_eq!(env.get_envlope(200_000, None), 500_000);
    assert_eq!(env.get_envlope(1_000_000, None), 500_000);
    assert_eq!(env.get_envlope(u64::MAX, None), 500_000);
}

#[test]
fn zero_decay_skips_the_decay_stage() {
    let env = ADSR::new(10_000, 0, UNIT, 100_000).unwrap();
    assert_eq!(env.get_envlope(9_999, None), 999_900);
    assert_eq!(env.get_envlope(10_000, None), UNIT);
    assert_eq!(env.get_envlope(10_001, None), UNIT);
}

#[test]
fn zero_attack_starts_at_sustain_when_decay_is_zero() {
    let env = ADSR::new(0, 0, 800_000, 100_000).unwrap();
    assert_eq!(env.get_envlope(0, None), 800_000);
    assert_eq!(env.get_envlope(5, None), 800_000);
}

#[test]
fn release_fades_anchored_to_frozen_gain() {
    let env = standard();
    // release begins in the sustain stage: frozen gain 500_000
    assert_eq!(env.get_envlope(200_000, Some(200_000)), 500_000);
    assert_eq!(env.get_envlope(225_000, Some(200_000)), 250_000);
    assert_eq!(env.get_envlope(249_999, Some(200_000)), 10);
    // release begins halfway through the attack: frozen gain 500_000
    assert_eq!(env.get_envlope(75_000, Some(50_000)), 250_000);
}

#[test]
fn release_reaches_exact_silence() {
    let env = standard();
    assert_eq!(env.get_envlope(250_000, Some(200_000)), 0);
    assert_eq!(env.get_envlope(10_000_000, Some(200_000)), 0);
}

#[test]
fn release_gain_is_non_increasing() {
    let env = standard();
    let mut previous = UNIT;
    let mut t: u64 = 200_000;
    while t <= 260_000 {
        let g = env.get_envlope(t, Some(200_000));
        assert!(g <= previous);
        previous = g;
        t += 5_000;
    }
}

#[test]
fn elapsed_before_release_onset_uses_stage_gain() {
    let env = standard();
    assert_eq!(env.get_envlope(25_000, Some(60_000)), 250_000);
}

#[test]
fn zero_release_silences_immediately() {
    let env = ADSR::new(100_000, 100_000, 500_000, 0).unwrap();
    assert_eq!(env.get_envlope(200_000, Some(200_000)), 0);
    assert_eq!(env.get_envlope(200_001, Some(200_000)), 0);
}

#[test]
fn adsr_new_rejects_bad_sustain() {
    assert!(ADSR::new(1, 1, -1, 1).is_none());
    assert!(ADSR::new(1, 1, UNIT + 1, 1).is_none());
    assert!(ADSR::new(1, 1, 0, 1).is_some());
    assert!(ADSR::new(1, 1, UNIT, 1).is_some());
}
