//! The three coordinate spaces and the conversions between them.
//!
//! A **world** coordinate addresses a single voxel in the unbounded world.
//! A **chunk** coordinate addresses a whole chunk (one unit per 32 voxels).
//! A **local** coordinate, in `[0, 32)` per axis, addresses a voxel within
//! its chunk. Voxel slots inside a chunk and chunk slots inside the grid
//! share one striding formula: x varies fastest, then z, then y.

use vstd::prelude::*;

verus! {

use vstd::arithmetic::div_mod::lemma_fundamental_div_mod_converse;

/// Voxels per chunk edge.
pub const CHUNK_EDGE: usize = 32;

/// Voxel slots in a chunk; also chunk slots in the grid.
pub const CHUNK_VOLUME: usize = 32 * 32 * 32;

/// Chunk coordinates valid in the grid span `[-GRID_HALF_EDGE, GRID_HALF_EDGE)`
/// on each axis.
pub const GRID_HALF_EDGE: i16 = 16;

/// The linear slot of local voxel coordinates: x fastest, then z, then y.
pub open spec fn vox_index_spec(lx: int, ly: int, lz: int) -> int {
    lx + lz * 32 + ly * 1024
}

/// The x component recovered from a voxel slot.
pub open spec fn vox_x(i: int) -> int {
    i % 32
}

/// The y component recovered from a voxel slot.
pub open spec fn vox_y(i: int) -> int {
    i / 1024
}

/// The z component recovered from a voxel slot.
pub open spec fn vox_z(i: int) -> int {
    (i / 32) % 32
}

/// Local coordinates lie in `[0, 32)` on every axis.
pub open spec fn in_chunk_bounds(lx: int, ly: int, lz: int) -> bool {
    &&& 0 <= lx < 32
    &&& 0 <= ly < 32
    &&& 0 <= lz < 32
}

/// The chunk that owns a world coordinate: mathematical floor division,
/// so negative world coordinates map to the more negative chunk.
pub open spec fn world_to_chunk_spec(w: int) -> int {
    w / 32
}

/// The position of a world coordinate within its chunk: Euclidean
/// remainder, always in `[0, 32)`.
pub open spec fn world_to_local_spec(w: int) -> int {
    w % 32
}

/// A chunk coordinate and a local coordinate recombine into a world
/// coordinate.
pub open spec fn chunk_local_to_world_spec(c: int, l: int) -> int {
    c * 32 + l
}

/// Chunk coordinates the grid can hold.
pub open spec fn in_grid_bounds(cx: int, cy: int, cz: int) -> bool {
    &&& -16 <= cx < 16
    &&& -16 <= cy < 16
    &&& -16 <= cz < 16
}

/// The grid slot of a chunk coordinate: the voxel striding formula shifted
/// by half the grid edge on each axis, so that chunk (0, 0, 0) lands near
/// the middle of the grid and small negative coordinates stay in bounds.
pub open spec fn grid_index_spec(cx: int, cy: int, cz: int) -> int {
    vox_index_spec(cx + 16, cy + 16, cz + 16)
}

/// The world-space x offset of the voxel across cube face `f`. Faces are
/// numbered 0 top (+z), 1 bottom (-z), 2 right (+x), 3 left (-x),
/// 4 front (+y), 5 back (-y).
pub open spec fn face_dx(f: int) -> int {
    if f == 2 {
        1
    } else if f == 3 {
        -1
    } else {
        0
    }
}

/// The world-space y offset of the voxel across cube face `f`.
pub open spec fn face_dy(f: int) -> int {
    if f == 4 {
        1
    } else if f == 5 {
        -1
    } else {
        0
    }
}

/// The world-space z offset of the voxel across cube face `f`.
pub open spec fn face_dz(f: int) -> int {
    if f == 0 {
        1
    } else if f == 1 {
        -1
    } else {
        0
    }
}

/// Splitting a voxel slot into digits: a slot in `[0, 32768)` decomposes
/// as `x + z*32 + y*1024` with every digit in `[0, 32)`.
pub proof fn lemma_vox_digits(i: int)
    requires
        0 <= i < 32768,
    ensures
        in_chunk_bounds(vox_x(i), vox_y(i), vox_z(i)),
        vox_index_spec(vox_x(i), vox_y(i), vox_z(i)) == i,
{
    lemma_fundamental_div_mod_converse(i, 32, i / 32, i % 32);
    lemma_fundamental_div_mod_converse(i / 32, 32, i / 32 / 32, (i / 32) % 32);
    assert(i / 32 / 32 == i / 1024) by {
        lemma_fundamental_div_mod_converse(
            i,
            1024,
            i / 32 / 32,
            (i / 32) % 32 * 32 + i % 32,
        );
    }
}

/// Round trip, slot side: recovering coordinates from a slot and
/// re-indexing them yields the slot again.
pub proof fn lemma_vox_index_of_coords(lx: int, ly: int, lz: int)
    requires
        in_chunk_bounds(lx, ly, lz),
    ensures
        0 <= vox_index_spec(lx, ly, lz) < 32768,
        vox_x(vox_index_spec(lx, ly, lz)) == lx,
        vox_y(vox_index_spec(lx, ly, lz)) == ly,
        vox_z(vox_index_spec(lx, ly, lz)) == lz,
{
    let i = vox_index_spec(lx, ly, lz);
    lemma_fundamental_div_mod_converse(i, 32, lz + ly * 32, lx);
    lemma_fundamental_div_mod_converse(lz + ly * 32, 32, ly, lz);
    lemma_fundamental_div_mod_converse(i, 1024, ly, lx + lz * 32);
}

/// A world coordinate splits into its chunk and local parts and
/// recombines to the same value: `chunk*32 + local == w`, with the local
/// part in `[0, 32)`. This holds for every integer `w`, negative ones
/// included (w = -1 gives chunk -1, local 31).
pub proof fn lemma_world_roundtrip(w: int)
    ensures
        0 <= world_to_local_spec(w) < 32,
        chunk_local_to_world_spec(world_to_chunk_spec(w), world_to_local_spec(w)) == w,
{
    vstd::arithmetic::div_mod::lemma_fundamental_div_mod(w, 32);
}

/// The converse direction: a chunk coordinate plus an in-range local
/// coordinate convert back to themselves from the combined world
/// coordinate.
pub proof fn lemma_world_decompose(c: int, l: int)
    requires
        0 <= l < 32,
    ensures
        world_to_chunk_spec(chunk_local_to_world_spec(c, l)) == c,
        world_to_local_spec(chunk_local_to_world_spec(c, l)) == l,
{
    lemma_fundamental_div_mod_converse(c * 32 + l, 32, c, l);
}

/// Grid slots decode uniquely: within the valid chunk-coordinate range the
/// grid index is injective, so distinct chunks never alias one slot.
pub proof fn lemma_grid_index_injective(
    ax: int,
    ay: int,
    az: int,
    bx: int,
    by: int,
    bz: int,
)
    requires
        in_grid_bounds(ax, ay, az),
        in_grid_bounds(bx, by, bz),
        grid_index_spec(ax, ay, az) == grid_index_spec(bx, by, bz),
    ensures
        ax == bx && ay == by && az == bz,
{
    lemma_vox_index_of_coords(ax + 16, ay + 16, az + 16);
    lemma_vox_index_of_coords(bx + 16, by + 16, bz + 16);
}

/// A valid chunk coordinate's grid slot lies in `[0, 32768)`.
pub proof fn lemma_grid_index_bounds(cx: int, cy: int, cz: int)
    requires
        in_grid_bounds(cx, cy, cz),
    ensures
        0 <= grid_index_spec(cx, cy, cz) < 32768,
{
    lemma_vox_index_of_coords(cx + 16, cy + 16, cz + 16);
}

} // verus!
