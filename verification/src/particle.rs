//! Particle values stored in the grid.

use vstd::prelude::*;

verus! {

/// The closed set of particle kinds. `Boundary` is synthetic: it is never
/// stored in the grid array, only returned for queries that fall in the
/// impassable margin around the playable interior. `Air` is the empty
/// state, `Sand` and `Water` are mobile, `Stone` is immobile.
#[derive(Clone, Copy, Debug, PartialEq, Eq, Structural)]
pub enum ParticleType {
    Boundary,
    Air,
    Sand,
    Water,
    Stone,
}

/// One grid cell's content. A particle has no identity beyond its type:
/// two `Air` particles are indistinguishable.
#[derive(Clone, Copy, Debug, PartialEq, Eq, Structural)]
pub struct Particle {
    pub particle_type: ParticleType,
}

impl Particle {
    pub fn new(particle_type: ParticleType) -> (r: Particle)
        ensures
            r.particle_type == particle_type,
    {
        Particle { particle_type }
    }
}

impl Default for Particle {
    /// The default particle is empty space.
    fn default() -> (r: Particle)
        ensures
            r.particle_type == ParticleType::Air,
    {
        Particle { particle_type: ParticleType::Air }
    }
}

} // verus!
