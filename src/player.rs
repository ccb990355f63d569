//! The player's cursor: which voxel cell is targeted for placement, and what
//! a click writes into the world.

use vstd::prelude::*;

use crate::voxels::{Voxel, STONE};

verus! {

/// An integer voxel coordinate.
#[derive(Clone, Copy, Debug, PartialEq, Eq, Structural)]
pub struct VoxelPos {
    pub x: i32,
    pub y: i32,
    pub z: i32,
}

/// Where a ray met the first solid voxel: that voxel, and the normal of the
/// face it entered by (absent when the ray started inside solid geometry).
#[derive(Clone, Copy, Debug, PartialEq, Eq, Structural)]
pub struct RayHit {
    pub position: VoxelPos,
    pub normal: Option<VoxelPos>,
}

/// What came of one cursor move: no ray could be cast through the cursor,
/// the ray missed every voxel, or it hit one.
#[derive(Clone, Copy, Debug, PartialEq, Eq, Structural)]
pub enum CursorRay {
    NoRay,
    Miss,
    Hit(RayHit),
}

/// A write into the voxel world.
#[derive(Clone, Copy, Debug, PartialEq, Eq, Structural)]
pub struct VoxelEdit {
    pub position: VoxelPos,
    pub voxel: Voxel,
}

/// Where the cursor starts: below the world, out of sight.
pub const CURSOR_START_Y: i32 = -10;

/// A hit from which a target can be derived: it has a normal, and the
/// cell beside the hit face has coordinates that fit in `i32`.
pub open spec fn valid_hit(h: RayHit) -> bool {
    &&& h.normal is Some
    &&& i32::MIN <= h.position.x + h.normal->0.x <= i32::MAX
    &&& i32::MIN <= h.position.y + h.normal->0.y <= i32::MAX
    &&& i32::MIN <= h.position.z + h.normal->0.z <= i32::MAX
}

/// Tells whether a hit is one from which a target can be derived.
pub fn is_valid_hit(h: &RayHit) -> (r: bool)
    ensures
        r == valid_hit(*h),
{
    match h.normal {
        None => false,
        Some(n) => {
            let x = h.position.x as i64 + n.x as i64;
            let y = h.position.y as i64 + n.y as i64;
            let z = h.position.z as i64 + n.z as i64;
            i32::MIN as i64 <= x && x <= i32::MAX as i64 && i32::MIN as i64 <= y && y
                <= i32::MAX as i64 && i32::MIN as i64 <= z && z <= i32::MAX as i64
        },
    }
}

/// The empty cell adjacent to the hit face: the hit voxel moved by the
/// face's normal.
pub open spec fn target_of(h: RayHit) -> VoxelPos {
    VoxelPos {
        x: (h.position.x + h.normal->0.x) as i32,
        y: (h.position.y + h.normal->0.y) as i32,
        z: (h.position.z + h.normal->0.z) as i32,
    }
}

/// Whether every hit among the moves is valid.
pub open spec fn valid_moves(rays: Seq<CursorRay>) -> bool {
    forall|i: int|
        0 <= i < rays.len() ==> (#[trigger] rays[i] matches CursorRay::Hit(h) ==> valid_hit(h))
}

/// The target after a run of cursor moves that starts at `start`. A miss
/// keeps the target; a hit moves it; a move through which no ray could be
/// cast ends the run, the later moves are not looked at.
pub open spec fn target_after_moves(start: VoxelPos, rays: Seq<CursorRay>) -> VoxelPos
    decreases rays.len(),
{
    if rays.len() == 0 {
        start
    } else {
        match rays[0] {
            CursorRay::NoRay => start,
            CursorRay::Miss => target_after_moves(start, rays.drop_first()),
            CursorRay::Hit(h) => target_after_moves(target_of(h), rays.drop_first()),
        }
    }
}

/// The cursor, holding the cell targeted for placement.
#[derive(Clone, Copy, Debug, PartialEq, Eq, Structural)]
pub struct PlayerCursor {
    pub voxel_pos: VoxelPos,
}

impl PlayerCursor {
    /// The cursor as it is when the player appears: targeting a cell below
    /// the world.
    pub fn new() -> (c: PlayerCursor)
        ensures
            c.voxel_pos == (VoxelPos { x: 0, y: CURSOR_START_Y, z: 0 }),
    {
        PlayerCursor { voxel_pos: VoxelPos { x: 0, y: CURSOR_START_Y, z: 0 } }
    }

    /// Handles the result of one raycast. A miss leaves the target as it was;
    /// a hit targets the cell adjacent to the hit face.
    pub fn update_target(&mut self, hit: Option<RayHit>)
        requires
            hit matches Some(h) ==> valid_hit(h),
        ensures
            hit is None ==> *final(self) == *old(self),
            hit matches Some(h) ==> final(self).voxel_pos == target_of(h),
    {
        match hit {
            None => {},
            Some(h) => {
                let n = h.normal.unwrap();
                self.voxel_pos =
                    VoxelPos {
                        x: h.position.x + n.x,
                        y: h.position.y + n.y,
                        z: h.position.z + n.z,
                    };
            },
        }
    }

    /// Handles the cursor moves of one frame in order; see
    /// `target_after_moves`.
    pub fn apply_cursor_moves(&mut self, rays: &Vec<CursorRay>)
        requires
            valid_moves(rays@),
        ensures
            final(self).voxel_pos == target_after_moves(old(self).voxel_pos, rays@),
    {
        let mut i: usize = 0;
        assert(rays@.skip(0) =~= rays@);
        while i < rays.len()
            invariant
                0 <= i <= rays.len(),
                valid_moves(rays@),
                target_after_moves(self.voxel_pos, rays@.skip(i as int)) == target_after_moves(
                    old(self).voxel_pos,
                    rays@,
                ),
            decreases rays.len() - i,
        {
            let ghost rest = rays@.skip(i as int);
            assert(rest[0] == rays@[i as int]);
            assert(rest.drop_first() =~= rays@.skip(i + 1));
            match rays[i] {
                CursorRay::NoRay => {
                    return;
                },
                CursorRay::Miss => {},
                CursorRay::Hit(h) => {
                    self.update_target(Some(h));
                },
            }
            i = i + 1;
        }
        assert(rays@.skip(i as int).len() == 0);
    }

    /// What a left click does: when the button was just pressed, a stone
    /// block is written at the targeted cell, whatever it holds now;
    /// otherwise nothing is written.
    pub fn click_edit(&self, left_just_pressed: bool) -> (r: Option<VoxelEdit>)
        ensures
            left_just_pressed ==> r == Some(
                VoxelEdit { position: self.voxel_pos, voxel: Voxel::Solid(STONE) },
            ),
            !left_just_pressed ==> r is None,
    {
        if left_just_pressed {
            Some(VoxelEdit { position: self.voxel_pos, voxel: Voxel::Solid(STONE) })
        } else {
            None
        }
    }
}

} // verus!
