//! Filling the particle store by rejection sampling with a bounded number
//! of attempts.
//!
//! The host draws candidate points and says of each whether it fell inside
//! the disk. The decisions are made here: an accepted candidate becomes the
//! next particle; a rejected one is drawn again, but only so often, after
//! which the particle is placed at the centre of the disk. Sampling
//! therefore ends, whatever the source of the draws.

use vstd::prelude::*;
use crate::error::ConfigError;
use crate::particles::{ParticleRecord, ParticleStore};

verus! {

/// Candidates drawn for one particle before it is placed at the centre.
pub const MAX_ATTEMPTS: u32 = 64;

/// Bit pattern of the sense distance 0.04 that every particle starts with.
pub const SENSE_DISTANCE: u32 = 0x3d23_d70a;

/// Bit pattern of the preference tag 1.0; the other tag, 0.0, is all zero.
pub const PREFERENCE_ONE: u32 = 0x3f80_0000;

/// What the host reports of one candidate.
#[derive(Clone, Copy, Debug, PartialEq, Eq, Structural)]
pub enum Draw {
    /// The point fell inside the disk; this is the particle made from it.
    Inside(ParticleRecord),
    /// The point fell outside the disk.
    Outside,
}

/// What became of one candidate.
#[derive(Clone, Copy, Debug, PartialEq, Eq, Structural)]
pub enum Placement {
    /// The candidate became the next particle.
    Placed,
    /// The candidate was rejected; another is to be drawn.
    Retry,
    /// The candidate was rejected and was the last allowed; the particle
    /// was placed at the centre.
    Centred,
}

/// The particle placed when every candidate was rejected: at rest at the
/// centre of the disk, with the usual sense distance and preference 0.0.
pub open spec fn centre_record() -> ParticleRecord {
    ParticleRecord {
        pos_x: 0,
        pos_y: 0,
        sense_distance: SENSE_DISTANCE,
        vel_x: 0,
        vel_y: 0,
        preference: 0,
    }
}

/// The state of sampling: the particles placed so far, the number wanted,
/// and the candidates rejected for the particle that is next.
pub struct Seeder {
    store: ParticleStore,
    wanted: usize,
    attempts: u32,
}

impl Seeder {
    /// The particles placed so far.
    pub closed spec fn placed(&self) -> Seq<ParticleRecord> {
        self.store@
    }

    /// The number of particles wanted.
    pub closed spec fn wanted(&self) -> nat {
        self.wanted as nat
    }

    /// The candidates rejected for the next particle.
    pub closed spec fn attempts(&self) -> nat {
        self.attempts as nat
    }

    /// No more particles are placed than wanted, fewer candidates were
    /// rejected for the next one than are allowed, and none once every
    /// particle is placed.
    pub closed spec fn wf(&self) -> bool {
        &&& self.store.wf()
        &&& self.store@.len() <= self.wanted
        &&& ParticleStore::fits(self.wanted as nat)
        &&& self.attempts < MAX_ATTEMPTS
        &&& self.store@.len() == self.wanted ==> self.attempts == 0
    }

    /// Whether every particle is placed.
    pub open spec fn complete(&self) -> bool {
        self.placed().len() == self.wanted()
    }

    /// The most candidates that can still be asked for.
    pub open spec fn budget(&self) -> int {
        (self.wanted() - self.placed().len()) * MAX_ATTEMPTS - self.attempts()
    }

    /// Starts sampling for `wanted` particles. Fails when the bytes of so
    /// many particles do not fit in 32 bits.
    pub fn new(wanted: usize) -> (seeder: Result<Seeder, ConfigError>)
        ensures
            match seeder {
                Ok(s) => {
                    &&& ParticleStore::fits(wanted as nat)
                    &&& s.wf()
                    &&& s.placed() == Seq::<ParticleRecord>::empty()
                    &&& s.wanted() == wanted
                    &&& s.attempts() == 0
                },
                Err(e) => !ParticleStore::fits(wanted as nat) && e
                    == ConfigError::ParticleStoreTooLarge,
            },
    {
        if wanted > 178_956_970 {
            return Err(ConfigError::ParticleStoreTooLarge);
        }
        Ok(Seeder { store: ParticleStore::new(), wanted, attempts: 0 })
    }

    /// Whether every particle is placed.
    pub fn is_complete(&self) -> (done: bool)
        requires
            self.wf(),
        ensures
            done == self.complete(),
    {
        self.store.len() == self.wanted
    }

    /// Number of particles placed so far.
    pub fn placed_count(&self) -> (n: usize)
        requires
            self.wf(),
        ensures
            n == self.placed().len(),
    {
        self.store.len()
    }

    /// Takes the report of one candidate for the next particle. A candidate
    /// inside the disk is placed. One outside is rejected; if it was the
    /// last of the allowed candidates, the particle is placed at the centre
    /// instead. Each report uses up some of the budget.
    pub fn offer(&mut self, draw: Draw) -> (placement: Placement)
        requires
            old(self).wf(),
            !old(self).complete(),
        ensures
            final(self).wf(),
            final(self).wanted() == old(self).wanted(),
            0 <= final(self).budget() < old(self).budget(),
            match draw {
                Draw::Inside(record) => {
                    &&& placement == Placement::Placed
                    &&& final(self).placed() == old(self).placed().push(record)
                    &&& final(self).attempts() == 0
                },
                Draw::Outside => if old(self).attempts() + 1 < MAX_ATTEMPTS {
                    &&& placement == Placement::Retry
                    &&& final(self).placed() == old(self).placed()
                    &&& final(self).attempts() == old(self).attempts() + 1
                } else {
                    &&& placement == Placement::Centred
                    &&& final(self).placed() == old(self).placed().push(centre_record())
                    &&& final(self).attempts() == 0
                },
            },
    {
        assert((self.wanted() - self.placed().len()) * MAX_ATTEMPTS == (self.wanted()
            - self.placed().len() - 1) * MAX_ATTEMPTS + MAX_ATTEMPTS) by (nonlinear_arith);
        assert((self.wanted() - self.placed().len() - 1) * MAX_ATTEMPTS >= 0) by (nonlinear_arith)
            requires
                self.wanted() - self.placed().len() - 1 >= 0,
        ;
        match draw {
            Draw::Inside(record) => {
                self.store.push(record);
                self.attempts = 0;
                Placement::Placed
            },
            Draw::Outside => {
                if self.attempts + 1 < MAX_ATTEMPTS {
                    self.attempts = self.attempts + 1;
                    Placement::Retry
                } else {
                    self.store.push(
                        ParticleRecord {
                            pos_x: 0,
                            pos_y: 0,
                            sense_distance: SENSE_DISTANCE,
                            vel_x: 0,
                            vel_y: 0,
                            preference: 0,
                        },
                    );
                    self.attempts = 0;
                    Placement::Centred
                }
            },
        }
    }

    /// Places the particle made from a candidate inside the disk. The host
    /// gives the position and the velocity that it computed, and says which
    /// of the two preference tags the particle has; the sense distance and
    /// the bit pattern of the tag are set here.
    pub fn offer_inside(
        &mut self,
        pos_x: u32,
        pos_y: u32,
        vel_x: u32,
        vel_y: u32,
        prefers: bool,
    ) -> (placement: Placement)
        requires
            old(self).wf(),
            !old(self).complete(),
        ensures
            final(self).wf(),
            final(self).wanted() == old(self).wanted(),
            0 <= final(self).budget() < old(self).budget(),
            placement == Placement::Placed,
            final(self).attempts() == 0,
            final(self).placed() == old(self).placed().push(
                ParticleRecord {
                    pos_x,
                    pos_y,
                    sense_distance: SENSE_DISTANCE,
                    vel_x,
                    vel_y,
                    preference: if prefers {
                        PREFERENCE_ONE
                    } else {
                        0
                    },
                },
            ),
    {
        let preference: u32 = if prefers {
            PREFERENCE_ONE
        } else {
            0
        };
        self.offer(
            Draw::Inside(
                ParticleRecord {
                    pos_x,
                    pos_y,
                    sense_distance: SENSE_DISTANCE,
                    vel_x,
                    vel_y,
                    preference,
                },
            ),
        )
    }

    /// Hands over the filled store.
    pub fn finish(self) -> (store: ParticleStore)
        requires
            self.wf(),
            self.complete(),
        ensures
            store.wf(),
            store@ == self.placed(),
            store@.len() == self.wanted(),
            ParticleStore::fits(store@.len()),
    {
        self.store
    }
}

/// Sampling ends: while it is not complete the budget is positive, and no
/// more candidates are ever asked for than the allowed number for each
/// particle wanted.
pub proof fn lemma_sampling_ends(seeder: Seeder)
    requires
        seeder.wf(),
    ensures
        0 <= seeder.budget() <= seeder.wanted() * MAX_ATTEMPTS,
        !seeder.complete() ==> seeder.budget() > 0,
        seeder.complete() <==> seeder.budget() == 0,
{
    assert((seeder.wanted() - seeder.placed().len()) * MAX_ATTEMPTS <= seeder.wanted()
        * MAX_ATTEMPTS) by (nonlinear_arith)
        requires
            0 <= seeder.placed().len() <= seeder.wanted(),
    ;
    assert(!seeder.complete() ==> (seeder.wanted() - seeder.placed().len()) * MAX_ATTEMPTS
        >= MAX_ATTEMPTS) by (nonlinear_arith)
        requires
            seeder.placed().len() <= seeder.wanted(),
            seeder.complete() <==> seeder.placed().len() == seeder.wanted(),
    ;
}

} // verus!
