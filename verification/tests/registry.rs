use lunar_lander::params::{Data, ParamKey, Parameters};

#[test]
fn defaults_match_the_reference_configuration() {
    let p = Parameters::default();
    assert_eq!(p.landscape_width(), 200);
    assert_eq!(p.landing_zone_radius(), 20);
    assert_eq!(p.landing_zone_min_distance(), 30);
    assert_eq!(p.landing_zone_max_distance(), 70);
    assert_eq!(p.lander_init_altitude(), 200_000);
    assert_eq!(p.lander_init_vertical_velocity(), 0);
    assert_eq!(p.lander_init_vertical_velocity_target(), -6_000);
}

#[test]
fn numeric_updates_clamp_to_their_ranges() {
    let mut p = Parameters::default();
    let stored = p.set(&vec![
        (ParamKey::LandscapeWidth, Some(Data::Num(5_000_000))),
        (ParamKey::LandingZoneRadius, Some(Data::Num(1))),
        (ParamKey::InitVerticalVelocity, Some(Data::Num(-50_000))),
    ]);
    assert_eq!(stored, vec![
        (ParamKey::LandscapeWidth, Data::Num(1_000_000)),
        (ParamKey::LandingZoneRadius, Data::Num(5_000)),
        (ParamKey::InitVerticalVelocity, Data::Num(-20_000)),
    ]);
    assert_eq!(p.landscape_width(), 1_000);
    assert_eq!(p.landing_zone_radius(), 5);
}

#[test]
fn distances_clamp_to_half_the_width_before_the_batch() {
    let mut p = Parameters::default();
    // The default width is 200 m, so distances cap at 100 m even when
    // the same batch also raises the width: clamps read the registry
    // as it stood before the batch.
    let stored = p.set(&vec![
        (ParamKey::LandscapeWidth, Some(Data::Num(1_000_000))),
        (ParamKey::LandingZoneMaxDistance, Some(Data::Num(400_000))),
    ]);
    assert_eq!(stored[1], (ParamKey::LandingZoneMaxDistance, Data::Num(100_000)));
    assert_eq!(p.landing_zone_max_distance(), 100);
}

#[test]
fn mismatched_kinds_are_dropped() {
    let mut p = Parameters::default();
    let stored = p.set(&vec![(ParamKey::Seed, Some(Data::Num(5)))]);
    assert!(stored.is_empty());
    assert_eq!(p.seed, 0);
}

#[test]
fn missing_value_resets_to_the_default() {
    let mut p = Parameters::default();
    p.set(&vec![(ParamKey::RegenerateSeed, Some(Data::Bool(false)))]);
    assert!(!p.regenerate_seed);
    p.set(&vec![(ParamKey::RegenerateSeed, None)]);
    assert!(p.regenerate_seed);
}

#[test]
fn get_reads_requested_keys_in_order() {
    let p = Parameters::default();
    let got = p.get(&vec![ParamKey::Seed, ParamKey::LandingZoneRadius]);
    assert_eq!(got, vec![
        (ParamKey::Seed, Data::Seed(0)),
        (ParamKey::LandingZoneRadius, Data::Num(20_000)),
    ]);
}

#[test]
fn stored_seed_is_reused_when_regeneration_is_off() {
    let mut p = Parameters::default();
    p.set(&vec![
        (ParamKey::RegenerateSeed, Some(Data::Bool(false))),
        (ParamKey::Seed, Some(Data::Seed(42))),
    ]);
    assert_eq!(p.next_seed(), 42);
    assert_eq!(p.next_seed(), 42);
}

#[test]
fn regenerated_seed_is_stored_for_the_round() {
    let mut p = Parameters::default();
    let s = p.next_seed();
    assert_eq!(p.seed, s);
}

#[test]
fn empty_get_reads_the_whole_registry() {
    let p = Parameters::default();
    let got = p.get(&vec![]);
    assert_eq!(got.len(), 9);
    assert_eq!(got[0], (ParamKey::Seed, Data::Seed(0)));
    assert_eq!(got[2], (ParamKey::LandscapeWidth, Data::Num(200_000)));
    assert_eq!(got[8], (ParamKey::InitVerticalVelocityTarget, Data::Num(-6_000)));
}
