//! Chunks: fixed 32 x 32 x 32 grids of optional blocks.
//!
//! A chunk owns exactly 32768 voxel slots in the linear layout of
//! [`crate::coords::vox_index_spec`] and answers bounds-checked occupancy
//! queries: a local coordinate outside `[0, 32)` on any axis reads as
//! "absent", exactly like an empty slot, so reads never panic.

use vstd::prelude::*;

verus! {

use vstd::arithmetic::div_mod::lemma_fundamental_div_mod;
use vstd::arithmetic::div_mod::lemma_fundamental_div_mod_converse;
use crate::block::Block;
use crate::coords::CHUNK_VOLUME;
use crate::coords::chunk_local_to_world_spec;
use crate::coords::face_dx;
use crate::coords::face_dy;
use crate::coords::face_dz;
use crate::coords::grid_index_spec;
use crate::coords::in_chunk_bounds;
use crate::coords::in_grid_bounds;
use crate::coords::lemma_grid_index_bounds;
use crate::coords::lemma_grid_index_injective;
use crate::coords::lemma_vox_digits;
use crate::coords::lemma_world_decompose;
use crate::coords::lemma_world_roundtrip;
use crate::coords::vox_index_spec;
use crate::coords::vox_x;
use crate::coords::vox_y;
use crate::coords::vox_z;
use crate::coords::world_to_chunk_spec;
use crate::coords::world_to_local_spec;

/// A 32 x 32 x 32 cuboid of optional blocks at chunk coordinate
/// (x, y, z). The `spawned` flag records whether a mesh has been produced
/// for the current contents; the scheduling layer around the core sets
/// and clears it.
#[derive(Clone, Debug, PartialEq)]
pub struct Chunk {
    pub x: i16,
    pub y: i16,
    pub z: i16,
    pub blocks: Vec<Option<Block>>,
    pub spawned: bool,
}

impl Chunk {
    /// A chunk is well formed when it owns exactly 32768 voxel slots.
    pub open spec fn wf(self) -> bool {
        self.blocks@.len() == 32768
    }

    /// The block at a local coordinate: `None` both for an empty slot and
    /// for any coordinate outside the chunk's volume.
    pub open spec fn block_at(self, lx: int, ly: int, lz: int) -> Option<Block> {
        if in_chunk_bounds(lx, ly, lz) {
            self.blocks@[vox_index_spec(lx, ly, lz)]
        } else {
            None
        }
    }

    /// Occupancy at a local coordinate; out-of-range coordinates are not
    /// solid.
    pub open spec fn solid_at(self, lx: int, ly: int, lz: int) -> bool {
        self.block_at(lx, ly, lz) is Some
    }

    /// Every slot of the chunk holds a block.
    pub open spec fn fully_solid(self) -> bool {
        forall|lx: int, ly: int, lz: int|
            in_chunk_bounds(lx, ly, lz) ==> self.solid_at(lx, ly, lz)
    }

    /// An empty, unspawned chunk at the given chunk coordinate.
    pub fn new(x: i16, y: i16, z: i16) -> (c: Chunk)
        ensures
            c.wf(),
            c.x == x && c.y == y && c.z == z,
            !c.spawned,
            forall|i: int| 0 <= i < 32768 ==> c.blocks@[i] is None,
    {
        let mut blocks: Vec<Option<Block>> = Vec::new();
        let mut i: usize = 0;
        while i < CHUNK_VOLUME
            invariant
                i <= 32768,
                blocks@.len() == i,
                forall|j: int| 0 <= j < i ==> blocks@[j] is None,
            decreases 32768 - i,
        {
            blocks.push(None);
            i += 1;
        }
        Chunk { x, y, z, blocks, spawned: false }
    }

    /// Overwrite one voxel slot with a block. The local coordinate must
    /// lie inside the chunk's volume.
    pub fn set_block(&mut self, block: Block, x: usize, y: usize, z: usize)
        requires
            old(self).wf(),
            x < 32 && y < 32 && z < 32,
        ensures
            final(self).wf(),
            final(self).blocks@ == old(self).blocks@.update(
                vox_index_spec(x as int, y as int, z as int),
                Some(block),
            ),
            final(self).x == old(self).x && final(self).y == old(self).y && final(self).z
                == old(self).z,
            final(self).spawned == old(self).spawned,
    {
        let i = Self::coords_to_index(x as u16, y as u16, z as u16);
        self.blocks.set(i, Some(block));
    }

    /// The block at a local coordinate, bounds checked: `None` for any
    /// coordinate outside `[0, 32)` on any axis as well as for an empty
    /// slot.
    pub fn get_block(&self, x: usize, y: usize, z: usize) -> (r: Option<Block>)
        requires
            self.wf(),
        ensures
            r == self.block_at(x as int, y as int, z as int),
    {
        if x < 32 && y < 32 && z < 32 {
            let i = Self::coords_to_index(x as u16, y as u16, z as u16);
            self.blocks[i]
        } else {
            None
        }
    }

    /// Whether a local coordinate holds a block; the atomic occupancy
    /// test used by all visibility queries.
    pub fn is_block(&self, x: usize, y: usize, z: usize) -> (r: bool)
        requires
            self.wf(),
        ensures
            r == self.solid_at(x as int, y as int, z as int),
    {
        self.get_block(x, y, z).is_some()
    }

    /// Face visibility bounded to this chunk's own volume: face `f` of
    /// the voxel in slot `block_index` is visible when the neighboring
    /// voxel across that face is not solid, where any position outside
    /// the chunk counts as not solid.
    pub fn get_faces(&self, block_index: usize) -> (faces: [bool; 6])
        requires
            self.wf(),
            block_index < 32768,
        ensures
            forall|f: int|
                0 <= f < 6 ==> faces@[f] == !self.solid_at(
                    vox_x(block_index as int) + face_dx(f),
                    vox_y(block_index as int) + face_dy(f),
                    vox_z(block_index as int) + face_dz(f),
                ),
    {
        proof {
            lemma_vox_digits(block_index as int);
        }
        let (x, y, z) = Self::index_to_coords(block_index);
        let top = !self.is_block(x, y, z + 1);
        let bottom = if z == 0 {
            true
        } else {
            !self.is_block(x, y, z - 1)
        };
        let right = !self.is_block(x + 1, y, z);
        let left = if x == 0 {
            true
        } else {
            !self.is_block(x - 1, y, z)
        };
        let front = !self.is_block(x, y + 1, z);
        let back = if y == 0 {
            true
        } else {
            !self.is_block(x, y - 1, z)
        };
        let faces: [bool; 6] = [top, bottom, right, left, front, back];
        proof {
            assert(faces@[0] == top);
            assert(faces@[1] == bottom);
            assert(faces@[2] == right);
            assert(faces@[3] == left);
            assert(faces@[4] == front);
            assert(faces@[5] == back);
        }
        faces
    }

    /// The local coordinates of a voxel slot: the inverse of
    /// `coords_to_index` over `[0, 32768)`.
    pub fn index_to_coords(index: usize) -> (r: (usize, usize, usize))
        requires
            index < 32768,
        ensures
            r.0 == vox_x(index as int),
            r.1 == vox_y(index as int),
            r.2 == vox_z(index as int),
            r.0 < 32 && r.1 < 32 && r.2 < 32,
    {
        proof {
            lemma_vox_digits(index as int);
        }
        (index % 32, index / 1024, (index / 32) % 32)
    }

    /// The voxel slot of a local coordinate triple: x varies fastest,
    /// then z, then y.
    pub fn coords_to_index(x: u16, y: u16, z: u16) -> (i: usize)
        requires
            x < 32 && y < 32 && z < 32,
        ensures
            i == vox_index_spec(x as int, y as int, z as int),
            i < 32768,
    {
        x as usize + (z as usize) * 32 + (y as usize) * 1024
    }
}

/// A bounded, centered grid of optional chunks: 32768 slots addressed by
/// the voxel striding formula shifted by half the grid edge per axis, so
/// chunk coordinates in `[-16, 16)` on every axis are representable and
/// anything outside reads as "absent".
#[derive(Debug, PartialEq)]
pub struct ChunkGrid {
    pub chunks: Vec<Option<Chunk>>,
}

impl ChunkGrid {
    /// The grid is well formed when it owns exactly 32768 chunk slots and
    /// every stored chunk is well formed, has in-range coordinates, and
    /// sits in the slot those coordinates index — so no two distinct
    /// chunk coordinates ever alias one slot.
    pub open spec fn wf(self) -> bool {
        &&& self.chunks@.len() == 32768
        &&& forall|i: int|
            0 <= i < 32768 && (#[trigger] self.chunks@[i]) is Some ==> {
                let c = self.chunks@[i]->Some_0;
                &&& c.wf()
                &&& in_grid_bounds(c.x as int, c.y as int, c.z as int)
                &&& grid_index_spec(c.x as int, c.y as int, c.z as int) == i
            }
    }

    /// The chunk stored at a chunk coordinate: `None` for a coordinate
    /// outside the representable range as well as for an empty slot.
    pub open spec fn chunk_at(self, cx: int, cy: int, cz: int) -> Option<Chunk> {
        if in_grid_bounds(cx, cy, cz) {
            self.chunks@[grid_index_spec(cx, cy, cz)]
        } else {
            None
        }
    }

    /// Occupancy of a world coordinate, resolved across chunk boundaries.
    /// A position in an absent chunk is not solid: an unloaded chunk is
    /// air, so faces toward it stay visible (the open-boundary policy).
    pub open spec fn solid_at_world(self, wx: int, wy: int, wz: int) -> bool {
        match self.chunk_at(
            world_to_chunk_spec(wx),
            world_to_chunk_spec(wy),
            world_to_chunk_spec(wz),
        ) {
            Some(c) => c.solid_at(
                world_to_local_spec(wx),
                world_to_local_spec(wy),
                world_to_local_spec(wz),
            ),
            None => false,
        }
    }

    /// Face `f` of the voxel at a world coordinate is visible exactly
    /// when the voxel across that face is not solid.
    pub open spec fn face_visible_spec(self, wx: int, wy: int, wz: int, f: int) -> bool {
        !self.solid_at_world(wx + face_dx(f), wy + face_dy(f), wz + face_dz(f))
    }

    /// An empty grid: 32768 slots, all absent.
    pub fn new() -> (g: ChunkGrid)
        ensures
            g.wf(),
            forall|i: int| 0 <= i < 32768 ==> g.chunks@[i] is None,
    {
        let mut chunks: Vec<Option<Chunk>> = Vec::new();
        let mut i: usize = 0;
        while i < CHUNK_VOLUME
            invariant
                i <= 32768,
                chunks@.len() == i,
                forall|j: int| 0 <= j < i ==> chunks@[j] is None,
            decreases 32768 - i,
        {
            chunks.push(None);
            i += 1;
        }
        ChunkGrid { chunks }
    }

    /// The grid slot of a chunk coordinate: `None` exactly when the
    /// coordinate is outside the representable range, so an in-range
    /// result is always a valid slot and out-of-range coordinates can
    /// never wrap or alias into another chunk's slot.
    pub fn chunk_coords_to_index(x: i16, y: i16, z: i16) -> (r: Option<usize>)
        ensures
            r is Some <==> in_grid_bounds(x as int, y as int, z as int),
            r matches Some(i) ==> i == grid_index_spec(x as int, y as int, z as int) && i
                < 32768,
    {
        if -16 <= x && x < 16 && -16 <= y && y < 16 && -16 <= z && z < 16 {
            let xi = (x + 16) as usize;
            let yi = (y + 16) as usize;
            let zi = (z + 16) as usize;
            Some(xi + zi * 32 + yi * 1024)
        } else {
            None
        }
    }

    /// The chunk coordinate whose slot a grid index is: the inverse of
    /// `chunk_coords_to_index` over `[0, 32768)`.
    pub fn chunk_index_to_coords(index: usize) -> (r: Option<(i16, i16, i16)>)
        ensures
            r is Some <==> index < 32768,
            r matches Some(c) ==> {
                &&& c.0 == vox_x(index as int) - 16
                &&& c.1 == vox_y(index as int) - 16
                &&& c.2 == vox_z(index as int) - 16
                &&& in_grid_bounds(c.0 as int, c.1 as int, c.2 as int)
                &&& grid_index_spec(c.0 as int, c.1 as int, c.2 as int) == index
            },
    {
        if index < 32768 {
            proof {
                lemma_vox_digits(index as int);
            }
            let cx = (index % 32) as i16 - 16;
            let cy = (index / 1024) as i16 - 16;
            let cz = ((index / 32) % 32) as i16 - 16;
            Some((cx, cy, cz))
        } else {
            None
        }
    }

    /// Store a chunk in the slot its own coordinates index, overwriting
    /// any prior chunk there; last write wins. Returns whether the chunk
    /// was stored: false exactly when its coordinates fall outside the
    /// representable range, in which case the grid is unchanged.
    pub fn set_chunk(&mut self, chunk: Chunk) -> (stored: bool)
        requires
            old(self).wf(),
            chunk.wf(),
        ensures
            final(self).wf(),
            stored <==> in_grid_bounds(chunk.x as int, chunk.y as int, chunk.z as int),
            stored ==> final(self).chunks@ == old(self).chunks@.update(
                grid_index_spec(chunk.x as int, chunk.y as int, chunk.z as int),
                Some(chunk),
            ),
            !stored ==> final(self).chunks@ == old(self).chunks@,
    {
        match Self::chunk_coords_to_index(chunk.x, chunk.y, chunk.z) {
            Some(i) => {
                self.chunks.set(i, Some(chunk));
                proof {
                    assert forall|j: int|
                        0 <= j < 32768 && (#[trigger] self.chunks@[j]) is Some implies {
                        let c = self.chunks@[j]->Some_0;
                        &&& c.wf()
                        &&& in_grid_bounds(c.x as int, c.y as int, c.z as int)
                        &&& grid_index_spec(c.x as int, c.y as int, c.z as int) == j
                    } by {
                        if j != i {
                            assert(self.chunks@[j] == old(self).chunks@[j]);
                        }
                    }
                }
                true
            },
            None => false,
        }
    }

    /// A reference to the chunk stored at a chunk coordinate, or `None`
    /// when the coordinate is out of range or its slot is empty.
    pub fn get_chunk_from_coords(&self, x: i16, y: i16, z: i16) -> (r: Option<&Chunk>)
        requires
            self.wf(),
        ensures
            match r {
                Some(c) => self.chunk_at(x as int, y as int, z as int) == Some(*c),
                None => self.chunk_at(x as int, y as int, z as int) is None,
            },
    {
        match Self::chunk_coords_to_index(x, y, z) {
            Some(i) => self.chunks[i].as_ref(),
            None => None,
        }
    }

    /// The world coordinate of a local voxel of a chunk:
    /// `world = chunk * 32 + local` per axis.
    pub fn convert_to_world_coords(
        c_x: i16,
        c_y: i16,
        c_z: i16,
        b_x: usize,
        b_y: usize,
        b_z: usize,
    ) -> (w: (i32, i32, i32))
        requires
            b_x < 32 && b_y < 32 && b_z < 32,
        ensures
            w.0 == chunk_local_to_world_spec(c_x as int, b_x as int),
            w.1 == chunk_local_to_world_spec(c_y as int, b_y as int),
            w.2 == chunk_local_to_world_spec(c_z as int, b_z as int),
    {
        (
            (c_x as i32) * 32 + (b_x as i32),
            (c_y as i32) * 32 + (b_y as i32),
            (c_z as i32) * 32 + (b_z as i32),
        )
    }

    /// The chunk coordinate owning each axis of a world coordinate:
    /// mathematical floor division by 32, so negative world coordinates
    /// map to the more negative chunk (world -1 lies in chunk -1).
    pub fn convert_to_chunk_coords(w_x: i32, w_y: i32, w_z: i32) -> (r: (i32, i32, i32))
        ensures
            r.0 == world_to_chunk_spec(w_x as int),
            r.1 == world_to_chunk_spec(w_y as int),
            r.2 == world_to_chunk_spec(w_z as int),
    {
        (floor_div_32(w_x), floor_div_32(w_y), floor_div_32(w_z))
    }

    /// The local coordinate of each axis of a world coordinate: the
    /// Euclidean remainder by 32, always in `[0, 32)`, also for negative
    /// world coordinates (world -1 is local 31).
    pub fn convert_to_block_coords(w_x: i32, w_y: i32, w_z: i32) -> (r: (usize, usize, usize))
        ensures
            r.0 == world_to_local_spec(w_x as int),
            r.1 == world_to_local_spec(w_y as int),
            r.2 == world_to_local_spec(w_z as int),
            r.0 < 32 && r.1 < 32 && r.2 < 32,
    {
        (euclid_mod_32(w_x), euclid_mod_32(w_y), euclid_mod_32(w_z))
    }

    /// The position of a world coordinate within its owning chunk.
    pub fn block_coords_in_chunk(x: i32, y: i32, z: i32) -> (r: (usize, usize, usize))
        ensures
            r.0 == world_to_local_spec(x as int),
            r.1 == world_to_local_spec(y as int),
            r.2 == world_to_local_spec(z as int),
            r.0 < 32 && r.1 < 32 && r.2 < 32,
    {
        Self::convert_to_block_coords(x, y, z)
    }

    /// Occupancy of a world coordinate, across chunk boundaries: the
    /// world coordinate is split into its chunk and local parts, the
    /// chunk is looked up, and an absent chunk counts as air.
    pub fn resolve_world_voxel(&self, w_x: i32, w_y: i32, w_z: i32) -> (r: bool)
        requires
            self.wf(),
        ensures
            r == self.solid_at_world(w_x as int, w_y as int, w_z as int),
    {
        let (c_x, c_y, c_z) = Self::convert_to_chunk_coords(w_x, w_y, w_z);
        if -16 <= c_x && c_x < 16 && -16 <= c_y && c_y < 16 && -16 <= c_z && c_z < 16 {
            proof {
                lemma_grid_index_bounds(c_x as int, c_y as int, c_z as int);
            }
            match self.get_chunk_from_coords(c_x as i16, c_y as i16, c_z as i16) {
                Some(c) => {
                    let (b_x, b_y, b_z) = Self::convert_to_block_coords(w_x, w_y, w_z);
                    c.is_block(b_x, b_y, b_z)
                },
                None => false,
            }
        } else {
            false
        }
    }

    /// The six face-visibility flags of one voxel, in face order top,
    /// bottom, right, left, front, back: a face is visible exactly when
    /// the neighboring voxel across it, resolved through world space and
    /// possibly in another chunk, is not solid. Crossing a chunk boundary
    /// is transparent: in-chunk and cross-chunk neighbors share this one
    /// occupancy test.
    pub fn get_faces(
        &self,
        c_x: i16,
        c_y: i16,
        c_z: i16,
        b_x: usize,
        b_y: usize,
        b_z: usize,
    ) -> (faces: [bool; 6])
        requires
            self.wf(),
            b_x < 32 && b_y < 32 && b_z < 32,
        ensures
            forall|f: int|
                0 <= f < 6 ==> faces@[f] == self.face_visible_spec(
                    chunk_local_to_world_spec(c_x as int, b_x as int),
                    chunk_local_to_world_spec(c_y as int, b_y as int),
                    chunk_local_to_world_spec(c_z as int, b_z as int),
                    f,
                ),
    {
        let (w_x, w_y, w_z) = Self::convert_to_world_coords(c_x, c_y, c_z, b_x, b_y, b_z);
        let top = !self.resolve_world_voxel(w_x, w_y, w_z + 1);
        let bottom = !self.resolve_world_voxel(w_x, w_y, w_z - 1);
        let right = !self.resolve_world_voxel(w_x + 1, w_y, w_z);
        let left = !self.resolve_world_voxel(w_x - 1, w_y, w_z);
        let front = !self.resolve_world_voxel(w_x, w_y + 1, w_z);
        let back = !self.resolve_world_voxel(w_x, w_y - 1, w_z);
        let faces: [bool; 6] = [top, bottom, right, left, front, back];
        proof {
            assert(faces@[0] == top);
            assert(faces@[1] == bottom);
            assert(faces@[2] == right);
            assert(faces@[3] == left);
            assert(faces@[4] == front);
            assert(faces@[5] == back);
        }
        faces
    }
}

impl Default for ChunkGrid {
    /// An empty grid.
    fn default() -> (g: Self)
        ensures
            g.wf(),
            forall|i: int| 0 <= i < 32768 ==> g.chunks@[i] is None,
    {
        Self::new()
    }
}

/// The open-boundary policy: a world position whose owning chunk is not
/// registered in the grid is air, so every face toward it is visible.
pub proof fn lemma_unloaded_chunk_is_air(g: ChunkGrid, wx: int, wy: int, wz: int)
    requires
        g.chunk_at(
            world_to_chunk_spec(wx),
            world_to_chunk_spec(wy),
            world_to_chunk_spec(wz),
        ) is None,
    ensures
        !g.solid_at_world(wx, wy, wz),
{
}

/// A fully solid registered chunk occludes: every world position inside
/// it is solid, so a face whose across-the-face neighbor lies in such a
/// chunk is not visible.
pub proof fn lemma_fully_solid_chunk_occludes(g: ChunkGrid, c: Chunk, wx: int, wy: int, wz: int)
    requires
        g.chunk_at(
            world_to_chunk_spec(wx),
            world_to_chunk_spec(wy),
            world_to_chunk_spec(wz),
        ) == Some(c),
        c.fully_solid(),
    ensures
        g.solid_at_world(wx, wy, wz),
{
    lemma_world_roundtrip(wx);
    lemma_world_roundtrip(wy);
    lemma_world_roundtrip(wz);
    assert(in_chunk_bounds(
        world_to_local_spec(wx),
        world_to_local_spec(wy),
        world_to_local_spec(wz),
    ));
    assert(c.solid_at(
        world_to_local_spec(wx),
        world_to_local_spec(wy),
        world_to_local_spec(wz),
    ));
}

/// Two adjacent fully solid chunks occlude each other across their shared
/// face: for any voxel on the boundary wall of the first chunk, the face
/// toward the second chunk is not visible, and symmetrically the second
/// chunk's facing wall is occluded by the first.
pub proof fn lemma_adjacent_solid_chunks_occlude(
    g: ChunkGrid,
    a: Chunk,
    b: Chunk,
    cx: int,
    cy: int,
    cz: int,
    ly: int,
    lz: int,
)
    requires
        g.chunk_at(cx, cy, cz) == Some(a),
        a.fully_solid(),
        g.chunk_at(cx + 1, cy, cz) == Some(b),
        b.fully_solid(),
        0 <= ly < 32,
        0 <= lz < 32,
    ensures
        !g.face_visible_spec(
            chunk_local_to_world_spec(cx, 31),
            chunk_local_to_world_spec(cy, ly),
            chunk_local_to_world_spec(cz, lz),
            2,
        ),
        !g.face_visible_spec(
            chunk_local_to_world_spec(cx + 1, 0),
            chunk_local_to_world_spec(cy, ly),
            chunk_local_to_world_spec(cz, lz),
            3,
        ),
{
    lemma_world_decompose(cx + 1, 0);
    lemma_world_decompose(cx, 31);
    lemma_world_decompose(cy, ly);
    lemma_world_decompose(cz, lz);
    lemma_fully_solid_chunk_occludes(
        g,
        b,
        (cx + 1) * 32,
        chunk_local_to_world_spec(cy, ly),
        chunk_local_to_world_spec(cz, lz),
    );
    lemma_fully_solid_chunk_occludes(
        g,
        a,
        cx * 32 + 31,
        chunk_local_to_world_spec(cy, ly),
        chunk_local_to_world_spec(cz, lz),
    );
}

/// In a grid holding a single chunk with a single solid voxel, every
/// world position other than that voxel's is air.
pub proof fn lemma_lone_voxel_world_air(
    g: ChunkGrid,
    c: Chunk,
    cx: int,
    cy: int,
    cz: int,
    lx: int,
    ly: int,
    lz: int,
    wx: int,
    wy: int,
    wz: int,
)
    requires
        g.wf(),
        in_grid_bounds(cx, cy, cz),
        in_chunk_bounds(lx, ly, lz),
        g.chunk_at(cx, cy, cz) == Some(c),
        forall|j: int|
            0 <= j < 32768 && j != grid_index_spec(cx, cy, cz) ==> g.chunks@[j] is None,
        forall|ax: int, ay: int, az: int|
            in_chunk_bounds(ax, ay, az) && !(ax == lx && ay == ly && az == lz)
                ==> !c.solid_at(ax, ay, az),
        !(wx == chunk_local_to_world_spec(cx, lx) && wy == chunk_local_to_world_spec(cy, ly)
            && wz == chunk_local_to_world_spec(cz, lz)),
    ensures
        !g.solid_at_world(wx, wy, wz),
{
    let qx = world_to_chunk_spec(wx);
    let qy = world_to_chunk_spec(wy);
    let qz = world_to_chunk_spec(wz);
    let rx = world_to_local_spec(wx);
    let ry = world_to_local_spec(wy);
    let rz = world_to_local_spec(wz);
    lemma_world_roundtrip(wx);
    lemma_world_roundtrip(wy);
    lemma_world_roundtrip(wz);
    if qx == cx && qy == cy && qz == cz {
        if rx == lx && ry == ly && rz == lz {
            assert(wx == chunk_local_to_world_spec(cx, lx));
            assert(false);
        }
        assert(!c.solid_at(rx, ry, rz));
    } else {
        if in_grid_bounds(qx, qy, qz) {
            lemma_grid_index_bounds(qx, qy, qz);
            if grid_index_spec(qx, qy, qz) == grid_index_spec(cx, cy, cz) {
                lemma_grid_index_injective(qx, qy, qz, cx, cy, cz);
                assert(false);
            }
            assert(g.chunks@[grid_index_spec(qx, qy, qz)] is None);
        }
    }
}

/// A lone solid voxel — the only voxel of the only registered chunk —
/// has all six faces visible: each neighbor lies either in the same
/// chunk, where every other slot is empty, or in an unregistered chunk,
/// which is air by the open-boundary policy.
pub proof fn lemma_lone_voxel_all_faces_visible(
    g: ChunkGrid,
    c: Chunk,
    cx: int,
    cy: int,
    cz: int,
    lx: int,
    ly: int,
    lz: int,
)
    requires
        g.wf(),
        in_grid_bounds(cx, cy, cz),
        in_chunk_bounds(lx, ly, lz),
        g.chunk_at(cx, cy, cz) == Some(c),
        forall|j: int|
            0 <= j < 32768 && j != grid_index_spec(cx, cy, cz) ==> g.chunks@[j] is None,
        forall|ax: int, ay: int, az: int|
            in_chunk_bounds(ax, ay, az) && !(ax == lx && ay == ly && az == lz)
                ==> !c.solid_at(ax, ay, az),
    ensures
        forall|f: int|
            0 <= f < 6 ==> g.face_visible_spec(
                chunk_local_to_world_spec(cx, lx),
                chunk_local_to_world_spec(cy, ly),
                chunk_local_to_world_spec(cz, lz),
                f,
            ),
{
    let wx = chunk_local_to_world_spec(cx, lx);
    let wy = chunk_local_to_world_spec(cy, ly);
    let wz = chunk_local_to_world_spec(cz, lz);
    assert forall|f: int| 0 <= f < 6 implies g.face_visible_spec(wx, wy, wz, f) by {
        lemma_lone_voxel_world_air(
            g,
            c,
            cx,
            cy,
            cz,
            lx,
            ly,
            lz,
            wx + face_dx(f),
            wy + face_dy(f),
            wz + face_dz(f),
        );
    }
}

/// Floor division of a world coordinate by 32, also for negative values.
fn floor_div_32(w: i32) -> (q: i32)
    ensures
        q == world_to_chunk_spec(w as int),
{
    if w >= 0 {
        ((w as u32) / 32) as i32
    } else {
        let n: u32 = (-(w as i64)) as u32;
        let q32: u32 = (n + 31) / 32;
        proof {
            lemma_fundamental_div_mod(n as int + 31, 32);
            lemma_fundamental_div_mod_converse(
                w as int,
                32,
                -(q32 as int),
                31 - (n as int + 31) % 32,
            );
        }
        -(q32 as i32)
    }
}

/// The Euclidean remainder of a world coordinate by 32.
fn euclid_mod_32(w: i32) -> (l: usize)
    ensures
        l == world_to_local_spec(w as int),
        l < 32,
{
    let q = floor_div_32(w);
    proof {
        lemma_world_roundtrip(w as int);
    }
    let l64: i64 = (w as i64) - 32 * (q as i64);
    l64 as usize
}

} // verus!

