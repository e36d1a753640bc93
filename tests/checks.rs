use sph_sim::checks::{check_state, validate_config, ConfigError, Divergence, Violation};

#[test]
fn valid_config_is_accepted() {
    assert_eq!(validate_config(2000, 30, true, true), Ok(()));
    assert_eq!(validate_config(2, 1, true, true), Ok(()));
}

#[test]
fn neighbor_count_must_be_below_particle_count() {
    assert_eq!(validate_config(30, 30, true, true), Err(ConfigError::TooManyNeighbors));
    assert_eq!(validate_config(10, 31, false, false), Err(ConfigError::TooManyNeighbors));
    assert_eq!(validate_config(0, 0, true, true), Err(ConfigError::TooManyNeighbors));
}

#[test]
fn radius_must_be_positive() {
    assert_eq!(validate_config(100, 10, false, true), Err(ConfigError::NonPositiveRadius));
    assert_eq!(validate_config(100, 10, false, false), Err(ConfigError::NonPositiveRadius));
}

#[test]
fn mass_must_be_positive() {
    assert_eq!(validate_config(100, 10, true, false), Err(ConfigError::NonPositiveMass));
}

#[test]
fn sound_state_passes() {
    let t = vec![true; 4];
    assert_eq!(check_state(7, &t, &t, &t), Ok(()));
    assert_eq!(check_state(0, &vec![], &vec![], &vec![]), Ok(()));
}

#[test]
fn first_broken_particle_is_reported() {
    let pos = vec![true, true, false, true];
    let vel = vec![true, false, true, true];
    let energy = vec![true, true, true, false];
    assert_eq!(
        check_state(12, &pos, &vel, &energy),
        Err(Divergence { step: 12, particle: 1, violation: Violation::NonFiniteVelocity })
    );
}

#[test]
fn position_is_checked_before_velocity_and_energy() {
    let f = vec![false];
    assert_eq!(
        check_state(3, &f, &f, &f),
        Err(Divergence { step: 3, particle: 0, violation: Violation::NonFinitePosition })
    );
}

#[test]
fn negative_energy_is_a_divergence() {
    let t = vec![true, true];
    assert_eq!(
        check_state(99, &t, &t, &vec![true, false]),
        Err(Divergence { step: 99, particle: 1, violation: Violation::NegativeEnergy })
    );
}
