//! The parameter block: twelve scalars in a fixed order, shared read-only by
//! every stage.
//!
//! Each scalar is stored as the bit pattern of a 32-bit IEEE 754 float. The
//! block is never interpreted here; it is handed to the stages as it is.

use vstd::prelude::*;

verus! {

/// Number of scalars in the block.
pub const PARAMETER_COUNT: usize = 12;

/// The scalars of the block, in the order in which the stages read them.
#[derive(Clone, Copy, Debug, PartialEq, Eq, Structural)]
pub enum Parameter {
    SimulationSpeed,
    BoundaryThreshold,
    OutOfBoundsForce,
    MaxSpeed,
    MinSpeed,
    MapResolution,
    CellImpact,
    SenseDistance,
    SenseForce,
    FadeRate,
    EraseRate,
    Stability,
}

impl Parameter {
    /// Position of the scalar in the block.
    pub open spec fn slot(self) -> int {
        match self {
            Parameter::SimulationSpeed => 0,
            Parameter::BoundaryThreshold => 1,
            Parameter::OutOfBoundsForce => 2,
            Parameter::MaxSpeed => 3,
            Parameter::MinSpeed => 4,
            Parameter::MapResolution => 5,
            Parameter::CellImpact => 6,
            Parameter::SenseDistance => 7,
            Parameter::SenseForce => 8,
            Parameter::FadeRate => 9,
            Parameter::EraseRate => 10,
            Parameter::Stability => 11,
        }
    }

    /// Position of the scalar in the block.
    pub fn index(self) -> (i: usize)
        ensures
            i == self.slot(),
            i < PARAMETER_COUNT,
    {
        match self {
            Parameter::SimulationSpeed => 0,
            Parameter::BoundaryThreshold => 1,
            Parameter::OutOfBoundsForce => 2,
            Parameter::MaxSpeed => 3,
            Parameter::MinSpeed => 4,
            Parameter::MapResolution => 5,
            Parameter::CellImpact => 6,
            Parameter::SenseDistance => 7,
            Parameter::SenseForce => 8,
            Parameter::FadeRate => 9,
            Parameter::EraseRate => 10,
            Parameter::Stability => 11,
        }
    }
}

/// The values of the reference configuration: speed 1.0, boundary 0.85,
/// out-of-bounds force 0.003, speeds from 0.0002 to 0.01, resolution 500.0,
/// cell impact 0.001, sense distance 0.04, sense force 0.4, fade rate 0.009,
/// erase rate 0.99 and stability 0.0.
pub open spec fn reference_values() -> Seq<u32> {
    seq![
        0x3f80_0000u32,
        0x3f59_999au32,
        0x3b44_9ba6u32,
        0x3c23_d70au32,
        0x3951_b717u32,
        0x43fa_0000u32,
        0x3a83_126fu32,
        0x3d23_d70au32,
        0x3ecc_cccdu32,
        0x3c13_74bcu32,
        0x3f7d_70a4u32,
        0x0000_0000u32,
    ]
}

/// The parameter block. It has no operation that changes it.
pub struct ParameterBlock {
    values: [u32; 12],
}

impl View for ParameterBlock {
    type V = Seq<u32>;

    closed spec fn view(&self) -> Seq<u32> {
        self.values@
    }
}

impl ParameterBlock {
    /// Creates the block from its twelve scalars, in order.
    pub fn create(values: [u32; 12]) -> (block: ParameterBlock)
        ensures
            block@ == values@,
            block@.len() == PARAMETER_COUNT,
    {
        ParameterBlock { values }
    }

    /// The block of the reference configuration.
    pub fn reference() -> (block: ParameterBlock)
        ensures
            block@ == reference_values(),
    {
        let values: [u32; 12] = [
            0x3f80_0000,
            0x3f59_999a,
            0x3b44_9ba6,
            0x3c23_d70a,
            0x3951_b717,
            0x43fa_0000,
            0x3a83_126f,
            0x3d23_d70a,
            0x3ecc_cccd,
            0x3c13_74bc,
            0x3f7d_70a4,
            0x0000_0000,
        ];
        assert(values@ =~= reference_values());
        ParameterBlock { values }
    }

    /// The block always holds twelve scalars.
    pub proof fn lemma_length(&self)
        ensures
            self@.len() == PARAMETER_COUNT,
    {
    }

    /// One scalar of the block.
    pub fn get(&self, parameter: Parameter) -> (value: u32)
        ensures
            value == self@[parameter.slot()],
    {
        self.values[parameter.index()]
    }

    /// The scalars of the block, in order.
    pub fn words(&self) -> (words: Vec<u32>)
        ensures
            words@ == self@,
            words@.len() == PARAMETER_COUNT,
    {
        let mut words: Vec<u32> = Vec::new();
        let mut i: usize = 0;
        while i < 12
            invariant
                i <= 12,
                words@.len() == i,
                forall|k: int| 0 <= k < i ==> words@[k] == self.values@[k],
            decreases 12 - i,
        {
            words.push(self.values[i]);
            i = i + 1;
        }
        assert(words@ =~= self@);
        words
    }
}

} // verus!
