//! Configuration faults found while the simulation is set up.

use vstd::prelude::*;

verus! {

/// A fault in the configuration. Each one is found before the first frame
/// and is fatal: the host reports it and stops.
#[derive(Clone, Copy, Debug, PartialEq, Eq, Structural)]
pub enum ConfigError {
    /// A bind group was given another number of buffers than its layout has
    /// slots.
    BindingCountMismatch { expected: usize, found: usize },
    /// The buffer given for slot `binding` was not created for the kind of
    /// access that the slot declares.
    BindingKindMismatch { binding: u32 },
    /// The buffer given for slot `binding` holds fewer bytes than the slot
    /// declares as its minimum.
    BindingTooSmall { binding: u32, required: u64, actual: u64 },
    /// The byte size of the particle store does not fit in 32 bits.
    ParticleStoreTooLarge,
    /// The byte size of one field grid does not fit in 32 bits.
    FieldTooLarge,
}

} // verus!
