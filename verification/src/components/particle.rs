//! The sparks that fly from a point of impact.
use vstd::prelude::*;
use crate::color::Color;
use crate::fixed::{difference, product, sat_mul, sat_sub, ONE};
use crate::math::Vector2;
use crate::sampler::uniform;

verus! {

/// Number of particles in a burst.
pub const BURST: usize = 15;

/// Least and least excluded horizontal speed of a new spark.
pub const SCATTER_X_MIN: i32 = -200 * ONE;

pub const SCATTER_X_MAX: i32 = 200 * ONE;

/// Least and least excluded vertical speed of a new spark: always upwards.
pub const SCATTER_Y_MIN: i32 = -400 * ONE;

pub const SCATTER_Y_MAX: i32 = -100 * ONE;

/// How much life a particle loses per second.
pub const DECAY: i32 = 2 * ONE;

/// A short-lived spark. It is removed once `life` is used up.
#[derive(Clone, Copy, Debug, PartialEq, Eq, Structural)]
pub struct Particle {
    pub pos: Vector2,
    pub vel: Vector2,
    /// Remaining life, from one down to zero; also the opacity it is drawn with.
    pub life: i32,
    pub color: Color,
}

impl Particle {
    /// A new spark at `origin` that flies off with `vel`.
    pub open spec fn fresh(origin: Vector2, vel: Vector2) -> Particle {
        Particle { pos: origin, vel, life: ONE, color: Color::off_white() }
    }

    /// The velocity is one that a new spark may have.
    pub open spec fn scatters(vel: Vector2) -> bool {
        &&& SCATTER_X_MIN <= vel.x < SCATTER_X_MAX
        &&& SCATTER_Y_MIN <= vel.y < SCATTER_Y_MAX
    }

    /// This particle is a new spark at `origin`.
    pub open spec fn sparks_from(self, origin: Vector2) -> bool {
        self == Particle::fresh(origin, self.vel) && Particle::scatters(self.vel)
    }

    /// The particles are one burst at `origin`.
    pub open spec fn is_burst(particles: Seq<Particle>, origin: Vector2) -> bool {
        &&& particles.len() == BURST
        &&& forall|i: int| 0 <= i < particles.len() ==> (#[trigger] particles[i]).sparks_from(origin)
    }

    /// The particle `dt` later: moved on, with `2 * dt` less life.
    pub open spec fn aged(self, dt: i32) -> Particle {
        Particle {
            pos: self.pos.moved(self.vel, dt),
            life: difference(self.life, product(dt, DECAY)),
            ..self
        }
    }

    /// The particle still has life left.
    pub open spec fn alive(self) -> bool {
        self.life > 0
    }

    /// All the particles `dt` later.
    pub open spec fn all_aged(particles: Seq<Particle>, dt: i32) -> Seq<Particle> {
        particles.map_values(|p: Particle| p.aged(dt))
    }

    /// Those of the particles that have life left, in their order.
    pub open spec fn survivors(particles: Seq<Particle>) -> Seq<Particle> {
        particles.filter(|p: Particle| p.alive())
    }

    /// A new spark at `origin` with the given velocity.
    pub fn spark(origin: Vector2, vel: Vector2) -> (p: Particle)
        ensures
            p == Particle::fresh(origin, vel),
    {
        Particle { color: Color::raywhite(), life: ONE, pos: origin, vel }
    }

    pub fn update(&mut self, dt: i32)
        ensures
            *final(self) == old(self).aged(dt),
    {
        self.pos = self.pos.advance(self.vel, dt);
        self.life = sat_sub(self.life, sat_mul(dt, DECAY));
    }

    /// A burst of sparks at `origin`, each with a velocity drawn at random:
    /// sideways either way, and always upwards.
    pub fn spawn_particles(origin: Vector2) -> (particles: Vec<Particle>)
        ensures
            Particle::is_burst(particles@, origin),
    {
        let mut particles: Vec<Particle> = Vec::new();
        let mut rng = rand::rng();

        let mut n: usize = 0;
        while n < BURST
            invariant
                n <= BURST,
                particles@.len() == n,
                forall|i: int| 0 <= i < particles@.len() ==> (#[trigger] particles@[i]).sparks_from(origin),
            decreases BURST - n,
        {
            let vx: i32 = uniform(&mut rng, SCATTER_X_MIN, SCATTER_X_MAX);
            let vy: i32 = uniform(&mut rng, SCATTER_Y_MIN, SCATTER_Y_MAX);
            particles.push(Particle::spark(origin, Vector2::new(vx, vy)));
            n = n + 1;
        }
        particles
    }

    /// Ages every particle by `dt` and drops those whose life is used up.
    pub fn age_all(particles: &mut Vec<Particle>, dt: i32)
        ensures
            final(particles)@ == Particle::survivors(Particle::all_aged(old(particles)@, dt)),
    {
        let ghost aged = Particle::all_aged(particles@, dt);
        let mut kept: Vec<Particle> = Vec::new();
        let mut i: usize = 0;
        while i < particles.len()
            invariant
                i <= particles@.len(),
                particles@ == old(particles)@,
                aged == Particle::all_aged(particles@, dt),
                kept@ == Particle::survivors(aged.take(i as int)),
            decreases particles@.len() - i,
        {
            let mut p = particles[i];
            p.update(dt);
            proof {
                reveal(Seq::filter);
                assert(aged.take(i + 1).drop_last() =~= aged.take(i as int));
            }
            if p.life > 0 {
                kept.push(p);
            }
            i = i + 1;
        }
        proof {
            assert(aged.take(i as int) =~= aged);
        }
        *particles = kept;
    }
}

} // verus!
