//! What vertex shader inputs are for.

use vstd::prelude::*;

verus! {

/// What an input of a vertex shader is for.
#[derive(Clone, Copy, Debug, PartialEq, Eq, Hash, Structural)]
pub enum DeclUsage {
    Position,
    BlendWeight,
    BlendIndices,
    Normal,
    PSize,
    Texcoord,
    Tangent,
    Binormal,
    TessFactor,
    PositionT,
    Color,
    Fog,
    Depth,
    Sample,
}

impl DeclUsage {
    /// The code that vertex declarations use for it.
    pub open spec fn code_spec(self) -> u8 {
        match self {
            DeclUsage::Position => 0,
            DeclUsage::BlendWeight => 1,
            DeclUsage::BlendIndices => 2,
            DeclUsage::Normal => 3,
            DeclUsage::PSize => 4,
            DeclUsage::Texcoord => 5,
            DeclUsage::Tangent => 6,
            DeclUsage::Binormal => 7,
            DeclUsage::TessFactor => 8,
            DeclUsage::PositionT => 9,
            DeclUsage::Color => 10,
            DeclUsage::Fog => 11,
            DeclUsage::Depth => 12,
            DeclUsage::Sample => 13,
        }
    }

    /// The code that vertex declarations use for it.
    pub fn code(self) -> (r: u8)
        ensures
            r == self.code_spec(),
    {
        match self {
            DeclUsage::Position => 0,
            DeclUsage::BlendWeight => 1,
            DeclUsage::BlendIndices => 2,
            DeclUsage::Normal => 3,
            DeclUsage::PSize => 4,
            DeclUsage::Texcoord => 5,
            DeclUsage::Tangent => 6,
            DeclUsage::Binormal => 7,
            DeclUsage::TessFactor => 8,
            DeclUsage::PositionT => 9,
            DeclUsage::Color => 10,
            DeclUsage::Fog => 11,
            DeclUsage::Depth => 12,
            DeclUsage::Sample => 13,
        }
    }
}

} // verus!
