//! Voxel values and the material-to-texture table.

use vstd::prelude::*;

verus! {

/// Material of mossy ground, the surface material of generated terrain.
pub const MOSS: u8 = 0;

/// Material of stone, the material that the player places.
pub const STONE: u8 = 1;

/// Material of water. Generation never produces it; it renders with the
/// fallback textures.
pub const WATER: u8 = 2;

/// What a voxel holds: nothing, or a solid block of some material.
#[derive(Clone, Copy, Debug, PartialEq, Eq, Structural)]
pub enum Voxel {
    Air,
    Solid(u8),
}

/// The texture indices (top, sides, bottom) used for a material. Moss and
/// stone have their own triples; every other material, water included,
/// falls back to a third one.
pub open spec fn texture_triple(mat: u8) -> Seq<u32> {
    if mat == MOSS {
        seq![0u32, 2u32, 1u32]
    } else if mat == STONE {
        seq![1u32, 1u32, 1u32]
    } else {
        seq![3u32, 3u32, 3u32]
    }
}

} // verus!
