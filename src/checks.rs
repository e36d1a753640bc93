//! The checks that end a run: a configuration that cannot be simulated, and a
//! state that has diverged after a step.
use vstd::prelude::*;

verus! {

/// Why a configuration was refused.
#[derive(Clone, Copy, Debug, PartialEq, Eq, Structural)]
pub enum ConfigError {
    /// The neighbour count is not below the particle count.
    TooManyNeighbors,
    /// The initial radius is not positive.
    NonPositiveRadius,
    /// The total mass is not positive.
    NonPositiveMass,
}

/// What `validate_config` answers: the first failing condition, in the order
/// neighbours, radius, mass.
pub open spec fn config_outcome(
    count: usize,
    neighbors: usize,
    radius_positive: bool,
    mass_positive: bool,
) -> Result<(), ConfigError> {
    if neighbors >= count {
        Err(ConfigError::TooManyNeighbors)
    } else if !radius_positive {
        Err(ConfigError::NonPositiveRadius)
    } else if !mass_positive {
        Err(ConfigError::NonPositiveMass)
    } else {
        Ok(())
    }
}

/// Accepts a configuration of `count` particles with `neighbors` neighbours
/// each, given whether its radius and total mass are positive.
pub fn validate_config(count: usize, neighbors: usize, radius_positive: bool, mass_positive: bool) -> (r: Result<(), ConfigError>)
    ensures
        r == config_outcome(count, neighbors, radius_positive, mass_positive),
        r is Ok <==> neighbors < count && radius_positive && mass_positive,
{
    if neighbors >= count {
        Err(ConfigError::TooManyNeighbors)
    } else if !radius_positive {
        Err(ConfigError::NonPositiveRadius)
    } else if !mass_positive {
        Err(ConfigError::NonPositiveMass)
    } else {
        Ok(())
    }
}

/// Which invariant of the state a particle broke.
#[derive(Clone, Copy, Debug, PartialEq, Eq, Structural)]
pub enum Violation {
    NonFinitePosition,
    NonFiniteVelocity,
    NegativeEnergy,
}

/// A diverged state: the step after which it was found, the first particle
/// that breaks an invariant, and the first invariant it breaks.
#[derive(Clone, Copy, Debug, PartialEq, Eq, Structural)]
pub struct Divergence {
    pub step: u64,
    pub particle: usize,
    pub violation: Violation,
}

/// Particle `i` keeps every invariant.
pub open spec fn particle_sound(pos_ok: Seq<bool>, vel_ok: Seq<bool>, energy_ok: Seq<bool>, i: int) -> bool {
    pos_ok[i] && vel_ok[i] && energy_ok[i]
}

/// The first invariant that particle `i` breaks, in the order position,
/// velocity, energy.
pub open spec fn violation_of(pos_ok: Seq<bool>, vel_ok: Seq<bool>, i: int) -> Violation {
    if !pos_ok[i] {
        Violation::NonFinitePosition
    } else if !vel_ok[i] {
        Violation::NonFiniteVelocity
    } else {
        Violation::NegativeEnergy
    }
}

/// Checks the state after step `step`, given for each particle whether its
/// position and velocity are finite and whether its thermal energy is
/// non-negative. Fails on the first particle that breaks one of these.
pub fn check_state(step: u64, pos_ok: &Vec<bool>, vel_ok: &Vec<bool>, energy_ok: &Vec<bool>) -> (r: Result<(), Divergence>)
    requires
        vel_ok.len() == pos_ok.len(),
        energy_ok.len() == pos_ok.len(),
    ensures
        r is Ok <==> forall|i: int| 0 <= i < pos_ok.len() ==> #[trigger] particle_sound(pos_ok@, vel_ok@, energy_ok@, i),
        r matches Err(d) ==> {
            &&& d.step == step
            &&& d.particle < pos_ok.len()
            &&& !particle_sound(pos_ok@, vel_ok@, energy_ok@, d.particle as int)
            &&& d.violation == violation_of(pos_ok@, vel_ok@, d.particle as int)
            &&& forall|i: int| 0 <= i < d.particle ==> #[trigger] particle_sound(pos_ok@, vel_ok@, energy_ok@, i)
        },
{
    let mut i: usize = 0;
    while i < pos_ok.len()
        invariant
            vel_ok.len() == pos_ok.len(),
            energy_ok.len() == pos_ok.len(),
            i <= pos_ok.len(),
            forall|c: int| 0 <= c < i ==> #[trigger] particle_sound(pos_ok@, vel_ok@, energy_ok@, c),
        decreases pos_ok.len() - i,
    {
        let violation = if !pos_ok[i] {
            Some(Violation::NonFinitePosition)
        } else if !vel_ok[i] {
            Some(Violation::NonFiniteVelocity)
        } else if !energy_ok[i] {
            Some(Violation::NegativeEnergy)
        } else {
            None
        };
        if let Some(v) = violation {
            assert(!particle_sound(pos_ok@, vel_ok@, energy_ok@, i as int));
            return Err(Divergence { step, particle: i, violation: v });
        }
        i = i + 1;
    }
    Ok(())
}

} // verus!
