//! The particle ensemble's state: index-aligned positions, velocities and
//! thermal energies, sized once and replaced whole after each step.
use vstd::prelude::*;

verus! {

/// Per-particle state, one entry per particle in each array. `V` is the
/// vector type of positions and velocities, `S` the scalar type of energies.
pub struct Ensemble<V, S> {
    positions: Vec<V>,
    velocities: Vec<V>,
    thermal_energies: Vec<S>,
    steps: u64,
}

impl<V: Copy, S: Copy> Ensemble<V, S> {
    /// Positions, by particle.
    pub closed spec fn spec_positions(&self) -> Seq<V> {
        self.positions@
    }

    /// Velocities, by particle.
    pub closed spec fn spec_velocities(&self) -> Seq<V> {
        self.velocities@
    }

    /// Thermal energies, by particle.
    pub closed spec fn spec_thermal_energies(&self) -> Seq<S> {
        self.thermal_energies@
    }

    /// Number of steps committed so far.
    pub closed spec fn spec_steps(&self) -> u64 {
        self.steps
    }

    /// The three arrays are index-aligned.
    pub open spec fn wf(&self) -> bool {
        &&& self.spec_velocities().len() == self.spec_positions().len()
        &&& self.spec_thermal_energies().len() == self.spec_positions().len()
    }

    /// Number of particles.
    pub open spec fn count(&self) -> nat {
        self.spec_positions().len()
    }

    /// The initial state, before any step.
    pub fn new(positions: Vec<V>, velocities: Vec<V>, thermal_energies: Vec<S>) -> (r: Self)
        requires
            velocities.len() == positions.len(),
            thermal_energies.len() == positions.len(),
        ensures
            r.wf(),
            r.spec_positions() == positions@,
            r.spec_velocities() == velocities@,
            r.spec_thermal_energies() == thermal_energies@,
            r.spec_steps() == 0,
    {
        Ensemble { positions, velocities, thermal_energies, steps: 0 }
    }

    /// Number of particles.
    pub fn len(&self) -> (n: usize)
        requires
            self.wf(),
        ensures
            n == self.count(),
    {
        self.positions.len()
    }

    /// Number of steps committed so far.
    pub fn steps(&self) -> (n: u64)
        ensures
            n == self.spec_steps(),
    {
        self.steps
    }

    /// Positions, by particle.
    pub fn positions(&self) -> (r: &[V])
        ensures
            r@ == self.spec_positions(),
    {
        self.positions.as_slice()
    }

    /// Velocities, by particle.
    pub fn velocities(&self) -> (r: &[V])
        ensures
            r@ == self.spec_velocities(),
    {
        self.velocities.as_slice()
    }

    /// Thermal energies, by particle.
    pub fn thermal_energies(&self) -> (r: &[S])
        ensures
            r@ == self.spec_thermal_energies(),
    {
        self.thermal_energies.as_slice()
    }

    /// Replaces the whole state with the one computed from it by a step, and
    /// counts the step. The particle count never changes.
    pub fn commit(&mut self, positions: Vec<V>, velocities: Vec<V>, thermal_energies: Vec<S>)
        requires
            old(self).wf(),
            positions.len() == old(self).count(),
            velocities.len() == old(self).count(),
            thermal_energies.len() == old(self).count(),
            old(self).spec_steps() < u64::MAX,
        ensures
            final(self).wf(),
            final(self).count() == old(self).count(),
            final(self).spec_positions() == positions@,
            final(self).spec_velocities() == velocities@,
            final(self).spec_thermal_energies() == thermal_energies@,
            final(self).spec_steps() == old(self).spec_steps() + 1,
    {
        self.positions = positions;
        self.velocities = velocities;
        self.thermal_energies = thermal_energies;
        self.steps = self.steps + 1;
    }
}

} // verus!
