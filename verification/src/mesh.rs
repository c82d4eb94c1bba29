//! The mesh assembler.
//!
//! Meshing a chunk walks its 32768 voxel slots in slot order and, for each
//! occupied voxel, emits exactly 24 vertices (4 per face, face order top,
//! bottom, right, left, front, back) and exactly 36 triangle indices
//! (6 per face), always. A culled face contributes degenerate entries —
//! zero positions, normals and texture coordinates, and six zero indices —
//! instead of being omitted, so the per-voxel strides stay constant. The
//! indices of the k-th emitted voxel address its own 24-vertex block at
//! base `k * 24`.
//!
//! Geometry is emitted in integer units so the buffers are exact values: a
//! position coordinate is in half-voxel units (the template corners sit at
//! -1 and 1 around twice the voxel's world coordinate), a normal component
//! is -1, 0 or 1, and a texture coordinate is in sixteenths of the atlas.
//! A renderer scales positions by 0.5 and texture coordinates by 1/16.

use vstd::prelude::*;

verus! {

use crate::block::Block;
use crate::block::uv_entry_spec;
use crate::chunk::Chunk;
use crate::chunk::ChunkGrid;
use crate::coords::CHUNK_VOLUME;
use crate::coords::chunk_local_to_world_spec;
use crate::coords::face_dx;
use crate::coords::face_dy;
use crate::coords::face_dz;
use crate::coords::vox_x;
use crate::coords::vox_y;
use crate::coords::vox_z;

/// The four parallel geometry buffers of one chunk's mesh, a triangle
/// list: positions in half-voxel units, unit normals, texture coordinates
/// in sixteenths of the atlas, and triangle indices into the vertex
/// buffers.
#[derive(Clone, Debug, PartialEq)]
pub struct MeshData {
    pub positions: Vec<(i32, i32, i32)>,
    pub normals: Vec<(i32, i32, i32)>,
    pub uvs: Vec<(u8, u8)>,
    pub indices: Vec<u32>,
}

/// Corner `t` of the per-cube vertex template, in half-voxel units around
/// the voxel center: face `t / 4`, corner `t % 4`, wound to face outward.
pub open spec fn template_corner(t: int) -> (int, int, int) {
    if t == 0 {
        (-1, -1, 1)
    } else if t == 1 {
        (1, -1, 1)
    } else if t == 2 {
        (1, 1, 1)
    } else if t == 3 {
        (-1, 1, 1)
    } else if t == 4 {
        (-1, 1, -1)
    } else if t == 5 {
        (1, 1, -1)
    } else if t == 6 {
        (1, -1, -1)
    } else if t == 7 {
        (-1, -1, -1)
    } else if t == 8 {
        (1, -1, -1)
    } else if t == 9 {
        (1, 1, -1)
    } else if t == 10 {
        (1, 1, 1)
    } else if t == 11 {
        (1, -1, 1)
    } else if t == 12 {
        (-1, -1, 1)
    } else if t == 13 {
        (-1, 1, 1)
    } else if t == 14 {
        (-1, 1, -1)
    } else if t == 15 {
        (-1, -1, -1)
    } else if t == 16 {
        (1, 1, -1)
    } else if t == 17 {
        (-1, 1, -1)
    } else if t == 18 {
        (-1, 1, 1)
    } else if t == 19 {
        (1, 1, 1)
    } else if t == 20 {
        (1, -1, 1)
    } else if t == 21 {
        (-1, -1, 1)
    } else if t == 22 {
        (-1, -1, -1)
    } else {
        (1, -1, -1)
    }
}

/// Entry `t` of the per-cube index template: face `t / 6`, with the six
/// entries of a face forming its two triangles over that face's four
/// template corners.
pub open spec fn template_index(t: int) -> int {
    let f = t / 6;
    let k = t % 6;
    4 * f + if k == 0 {
        0int
    } else if k == 1 {
        1int
    } else if k == 2 {
        2int
    } else if k == 3 {
        2int
    } else if k == 4 {
        3int
    } else {
        0int
    }
}

/// Whether face `f` of the voxel in slot `i` of the chunk at (cx, cy, cz)
/// is visible in grid `g`.
pub open spec fn voxel_face_visible(
    g: ChunkGrid,
    cx: int,
    cy: int,
    cz: int,
    i: int,
    f: int,
) -> bool {
    g.face_visible_spec(
        chunk_local_to_world_spec(cx, vox_x(i)),
        chunk_local_to_world_spec(cy, vox_y(i)),
        chunk_local_to_world_spec(cz, vox_z(i)),
        f,
    )
}

/// Vertex `t` of the voxel in slot `i`: the template corner offset by
/// twice the voxel's absolute world position, in half-voxel units.
pub open spec fn voxel_vertex_position(cx: int, cy: int, cz: int, i: int, t: int) -> (
    i32,
    i32,
    i32,
) {
    let p = template_corner(t);
    (
        (2 * chunk_local_to_world_spec(cx, vox_x(i)) + p.0) as i32,
        (2 * chunk_local_to_world_spec(cy, vox_y(i)) + p.1) as i32,
        (2 * chunk_local_to_world_spec(cz, vox_z(i)) + p.2) as i32,
    )
}

/// The 24 position entries one occupied voxel contributes: the template
/// corner when its face is visible, the zero vector when it is culled.
pub open spec fn voxel_positions(g: ChunkGrid, cx: int, cy: int, cz: int, i: int) -> Seq<
    (i32, i32, i32),
> {
    Seq::new(
        24,
        |t: int|
            if voxel_face_visible(g, cx, cy, cz, i, t / 4) {
                voxel_vertex_position(cx, cy, cz, i, t)
            } else {
                (0, 0, 0)
            },
    )
}

/// The 24 normal entries one occupied voxel contributes: the face's
/// outward unit vector when visible, the zero vector when culled.
pub open spec fn voxel_normals(g: ChunkGrid, cx: int, cy: int, cz: int, i: int) -> Seq<
    (i32, i32, i32),
> {
    Seq::new(
        24,
        |t: int|
            if voxel_face_visible(g, cx, cy, cz, i, t / 4) {
                (face_dx(t / 4) as i32, face_dy(t / 4) as i32, face_dz(t / 4) as i32)
            } else {
                (0, 0, 0)
            },
    )
}

/// The 24 texture-coordinate entries one occupied voxel contributes: the
/// material's atlas corner when the face is visible, zero when culled.
pub open spec fn voxel_uvs(g: ChunkGrid, cx: int, cy: int, cz: int, i: int, code: u8) -> Seq<
    (u8, u8),
> {
    Seq::new(
        24,
        |t: int|
            if voxel_face_visible(g, cx, cy, cz, i, t / 4) {
                uv_entry_spec(code, t)
            } else {
                (0, 0)
            },
    )
}

/// The 36 index entries one occupied voxel contributes when it is the
/// `base`-th voxel emitted: the template index offset into its private
/// 24-vertex block when the face is visible, six zeros (referencing the
/// degenerate vertex 0) when culled.
pub open spec fn voxel_indices(
    g: ChunkGrid,
    cx: int,
    cy: int,
    cz: int,
    i: int,
    base: int,
) -> Seq<u32> {
    Seq::new(
        36,
        |t: int|
            if voxel_face_visible(g, cx, cy, cz, i, t / 6) {
                (base * 24 + template_index(t)) as u32
            } else {
                0u32
            },
    )
}

/// How many of the first `n` voxel slots hold a block.
pub open spec fn count_solid(blocks: Seq<Option<Block>>, n: int) -> int
    decreases n,
{
    if n <= 0 {
        0
    } else {
        count_solid(blocks, n - 1) + if blocks[n - 1] is Some {
            1int
        } else {
            0int
        }
    }
}

/// The position buffer after the first `n` slots have been walked.
pub open spec fn mesh_positions_spec(
    g: ChunkGrid,
    cx: int,
    cy: int,
    cz: int,
    blocks: Seq<Option<Block>>,
    n: int,
) -> Seq<(i32, i32, i32)>
    decreases n,
{
    if n <= 0 {
        Seq::empty()
    } else {
        let rest = mesh_positions_spec(g, cx, cy, cz, blocks, n - 1);
        if blocks[n - 1] is Some {
            rest + voxel_positions(g, cx, cy, cz, n - 1)
        } else {
            rest
        }
    }
}

/// The normal buffer after the first `n` slots have been walked.
pub open spec fn mesh_normals_spec(
    g: ChunkGrid,
    cx: int,
    cy: int,
    cz: int,
    blocks: Seq<Option<Block>>,
    n: int,
) -> Seq<(i32, i32, i32)>
    decreases n,
{
    if n <= 0 {
        Seq::empty()
    } else {
        let rest = mesh_normals_spec(g, cx, cy, cz, blocks, n - 1);
        if blocks[n - 1] is Some {
            rest + voxel_normals(g, cx, cy, cz, n - 1)
        } else {
            rest
        }
    }
}

/// The texture-coordinate buffer after the first `n` slots have been
/// walked.
pub open spec fn mesh_uvs_spec(
    g: ChunkGrid,
    cx: int,
    cy: int,
    cz: int,
    blocks: Seq<Option<Block>>,
    n: int,
) -> Seq<(u8, u8)>
    decreases n,
{
    if n <= 0 {
        Seq::empty()
    } else {
        let rest = mesh_uvs_spec(g, cx, cy, cz, blocks, n - 1);
        if blocks[n - 1] is Some {
            rest + voxel_uvs(g, cx, cy, cz, n - 1, blocks[n - 1]->Some_0.0)
        } else {
            rest
        }
    }
}

/// The index buffer after the first `n` slots have been walked.
pub open spec fn mesh_indices_spec(
    g: ChunkGrid,
    cx: int,
    cy: int,
    cz: int,
    blocks: Seq<Option<Block>>,
    n: int,
) -> Seq<u32>
    decreases n,
{
    if n <= 0 {
        Seq::empty()
    } else {
        let rest = mesh_indices_spec(g, cx, cy, cz, blocks, n - 1);
        if blocks[n - 1] is Some {
            rest + voxel_indices(g, cx, cy, cz, n - 1, count_solid(blocks, n - 1))
        } else {
            rest
        }
    }
}

/// The buffers grow in lockstep with the occupied-voxel count: after `n`
/// slots, a chunk with `count_solid(blocks, n)` occupied voxels among
/// them has contributed exactly 24 position, normal and texture entries
/// and 36 index entries per occupied voxel — however many faces are
/// visible.
pub proof fn lemma_mesh_buffer_lengths(
    g: ChunkGrid,
    cx: int,
    cy: int,
    cz: int,
    blocks: Seq<Option<Block>>,
    n: int,
)
    ensures
        0 <= count_solid(blocks, n) <= (if n <= 0 { 0int } else { n }),
        mesh_positions_spec(g, cx, cy, cz, blocks, n).len() == 24 * count_solid(blocks, n),
        mesh_normals_spec(g, cx, cy, cz, blocks, n).len() == 24 * count_solid(blocks, n),
        mesh_uvs_spec(g, cx, cy, cz, blocks, n).len() == 24 * count_solid(blocks, n),
        mesh_indices_spec(g, cx, cy, cz, blocks, n).len() == 36 * count_solid(blocks, n),
    decreases (if n <= 0 { 0int } else { n }),
{
    if n > 0 {
        lemma_mesh_buffer_lengths(g, cx, cy, cz, blocks, n - 1);
    }
}

/// Meshing is deterministic: the buffers are a function of the grid, the
/// chunk coordinate and the chunk contents alone, so any two meshes of
/// the same unchanged chunk are identical, buffer for buffer.
pub proof fn lemma_mesh_deterministic(
    m1: MeshData,
    m2: MeshData,
    g: ChunkGrid,
    cx: int,
    cy: int,
    cz: int,
    blocks: Seq<Option<Block>>,
)
    requires
        m1.positions@ == mesh_positions_spec(g, cx, cy, cz, blocks, 32768),
        m1.normals@ == mesh_normals_spec(g, cx, cy, cz, blocks, 32768),
        m1.uvs@ == mesh_uvs_spec(g, cx, cy, cz, blocks, 32768),
        m1.indices@ == mesh_indices_spec(g, cx, cy, cz, blocks, 32768),
        m2.positions@ == mesh_positions_spec(g, cx, cy, cz, blocks, 32768),
        m2.normals@ == mesh_normals_spec(g, cx, cy, cz, blocks, 32768),
        m2.uvs@ == mesh_uvs_spec(g, cx, cy, cz, blocks, 32768),
        m2.indices@ == mesh_indices_spec(g, cx, cy, cz, blocks, 32768),
    ensures
        m1.positions@ == m2.positions@,
        m1.normals@ == m2.normals@,
        m1.uvs@ == m2.uvs@,
        m1.indices@ == m2.indices@,
{
}

/// One template corner, executably.
fn template_corner_exec(t: usize) -> (r: (i32, i32, i32))
    requires
        t < 24,
    ensures
        r.0 == template_corner(t as int).0,
        r.1 == template_corner(t as int).1,
        r.2 == template_corner(t as int).2,
{
    match t {
        0 => (-1, -1, 1),
        1 => (1, -1, 1),
        2 => (1, 1, 1),
        3 => (-1, 1, 1),
        4 => (-1, 1, -1),
        5 => (1, 1, -1),
        6 => (1, -1, -1),
        7 => (-1, -1, -1),
        8 => (1, -1, -1),
        9 => (1, 1, -1),
        10 => (1, 1, 1),
        11 => (1, -1, 1),
        12 => (-1, -1, 1),
        13 => (-1, 1, 1),
        14 => (-1, 1, -1),
        15 => (-1, -1, -1),
        16 => (1, 1, -1),
        17 => (-1, 1, -1),
        18 => (-1, 1, 1),
        19 => (1, 1, 1),
        20 => (1, -1, 1),
        21 => (-1, -1, 1),
        22 => (-1, -1, -1),
        _ => (1, -1, -1),
    }
}

/// The outward unit normal of a face, executably.
fn face_normal_exec(f: usize) -> (r: (i32, i32, i32))
    requires
        f < 6,
    ensures
        r.0 == face_dx(f as int),
        r.1 == face_dy(f as int),
        r.2 == face_dz(f as int),
{
    match f {
        0 => (0, 0, 1),
        1 => (0, 0, -1),
        2 => (1, 0, 0),
        3 => (-1, 0, 0),
        4 => (0, 1, 0),
        _ => (0, -1, 0),
    }
}

/// One entry of the index template, executably.
fn template_index_exec(t: usize) -> (r: usize)
    requires
        t < 36,
    ensures
        r == template_index(t as int),
        r < 24,
{
    let f: usize = t / 6;
    let k: usize = t % 6;
    let o: usize = match k {
        0 => 0,
        1 => 1,
        2 => 2,
        3 => 2,
        4 => 3,
        _ => 0,
    };
    4 * f + o
}

impl ChunkGrid {
    /// The triangle mesh of the chunk stored at a chunk coordinate, with
    /// faces hidden by neighboring solid voxels — neighbors in adjacent
    /// chunks included — culled to degenerate entries. Returns `None`
    /// exactly when no chunk is registered at that coordinate: a mesh
    /// request for an unloaded chunk is a reported failure, never a
    /// crash.
    #[verifier::loop_isolation(false)]
    pub fn generate_mesh(&self, chunk_x: i16, chunk_y: i16, chunk_z: i16) -> (r: Option<
        MeshData,
    >)
        requires
            self.wf(),
        ensures
            r is Some <==> self.chunk_at(chunk_x as int, chunk_y as int, chunk_z as int)
                is Some,
            r matches Some(m) ==> {
                let c = self.chunk_at(chunk_x as int, chunk_y as int, chunk_z as int)->Some_0;
                let n = count_solid(c.blocks@, 32768);
                &&& m.positions@ == mesh_positions_spec(
                    *self,
                    chunk_x as int,
                    chunk_y as int,
                    chunk_z as int,
                    c.blocks@,
                    32768,
                )
                &&& m.normals@ == mesh_normals_spec(
                    *self,
                    chunk_x as int,
                    chunk_y as int,
                    chunk_z as int,
                    c.blocks@,
                    32768,
                )
                &&& m.uvs@ == mesh_uvs_spec(
                    *self,
                    chunk_x as int,
                    chunk_y as int,
                    chunk_z as int,
                    c.blocks@,
                    32768,
                )
                &&& m.indices@ == mesh_indices_spec(
                    *self,
                    chunk_x as int,
                    chunk_y as int,
                    chunk_z as int,
                    c.blocks@,
                    32768,
                )
                &&& m.positions@.len() == 24 * n
                &&& m.normals@.len() == 24 * n
                &&& m.uvs@.len() == 24 * n
                &&& m.indices@.len() == 36 * n
            },
    {
        let chunk: &Chunk = match self.get_chunk_from_coords(chunk_x, chunk_y, chunk_z) {
            Some(c) => c,
            None => {
                return None;
            },
        };
        let ghost cx: int = chunk_x as int;
        let ghost cy: int = chunk_y as int;
        let ghost cz: int = chunk_z as int;
        let ghost blocks: Seq<Option<Block>> = chunk.blocks@;
        let mut positions: Vec<(i32, i32, i32)> = Vec::new();
        let mut normals: Vec<(i32, i32, i32)> = Vec::new();
        let mut uvs: Vec<(u8, u8)> = Vec::new();
        let mut indices: Vec<u32> = Vec::new();
        let mut base: usize = 0;
        let mut i: usize = 0;
        while i < CHUNK_VOLUME
            invariant
                i <= 32768,
                base == count_solid(blocks, i as int),
                base <= i,
                positions@ == mesh_positions_spec(*self, cx, cy, cz, blocks, i as int),
                normals@ == mesh_normals_spec(*self, cx, cy, cz, blocks, i as int),
                uvs@ == mesh_uvs_spec(*self, cx, cy, cz, blocks, i as int),
                indices@ == mesh_indices_spec(*self, cx, cy, cz, blocks, i as int),
            decreases 32768 - i,
        {
            match chunk.blocks[i] {
                Some(b) => {
                    let (b_x, b_y, b_z) = Chunk::index_to_coords(i);
                    let faces = self.get_faces(chunk_x, chunk_y, chunk_z, b_x, b_y, b_z);
                    let uv = b.get_texture_uv();
                    let w_x: i32 = (chunk_x as i32) * 32 + (b_x as i32);
                    let w_y: i32 = (chunk_y as i32) * 32 + (b_y as i32);
                    let w_z: i32 = (chunk_z as i32) * 32 + (b_z as i32);
                    let ghost pos_pre = positions@;
                    let ghost nor_pre = normals@;
                    let ghost uv_pre = uvs@;
                    let ghost vp = voxel_positions(*self, cx, cy, cz, i as int);
                    let ghost vn = voxel_normals(*self, cx, cy, cz, i as int);
                    let ghost vu = voxel_uvs(*self, cx, cy, cz, i as int, b.0);
                    let mut t: usize = 0;
                    while t < 24
                        invariant
                            t <= 24,
                            positions@ == pos_pre + vp.subrange(0, t as int),
                            normals@ == nor_pre + vn.subrange(0, t as int),
                            uvs@ == uv_pre + vu.subrange(0, t as int),
                        decreases 24 - t,
                    {
                        let f: usize = t / 4;
                        if faces[f] {
                            let (dx, dy, dz) = template_corner_exec(t);
                            positions.push((2 * w_x + dx, 2 * w_y + dy, 2 * w_z + dz));
                            normals.push(face_normal_exec(f));
                            uvs.push(uv[t]);
                        } else {
                            positions.push((0, 0, 0));
                            normals.push((0, 0, 0));
                            uvs.push((0, 0));
                        }
                        proof {
                            assert(positions@.last() == vp[t as int]);
                            assert(normals@.last() == vn[t as int]);
                            assert(uvs@.last() == vu[t as int]);
                            assert(pos_pre + vp.subrange(0, t as int + 1) =~= (pos_pre
                                + vp.subrange(0, t as int)).push(vp[t as int]));
                            assert(nor_pre + vn.subrange(0, t as int + 1) =~= (nor_pre
                                + vn.subrange(0, t as int)).push(vn[t as int]));
                            assert(uv_pre + vu.subrange(0, t as int + 1) =~= (uv_pre
                                + vu.subrange(0, t as int)).push(vu[t as int]));
                        }
                        t += 1;
                    }
                    let ghost idx_pre = indices@;
                    let ghost vi = voxel_indices(*self, cx, cy, cz, i as int, base as int);
                    let mut t: usize = 0;
                    while t < 36
                        invariant
                            t <= 36,
                            indices@ == idx_pre + vi.subrange(0, t as int),
                        decreases 36 - t,
                    {
                        let f: usize = t / 6;
                        if faces[f] {
                            let ti = template_index_exec(t);
                            indices.push((base * 24 + ti) as u32);
                        } else {
                            indices.push(0);
                        }
                        proof {
                            assert(indices@.last() == vi[t as int]);
                            assert(idx_pre + vi.subrange(0, t as int + 1) =~= (idx_pre
                                + vi.subrange(0, t as int)).push(vi[t as int]));
                        }
                        t += 1;
                    }
                    base += 1;
                    proof {
                        assert(vp.subrange(0, 24) =~= vp);
                        assert(vn.subrange(0, 24) =~= vn);
                        assert(vu.subrange(0, 24) =~= vu);
                        assert(vi.subrange(0, 36) =~= vi);
                        assert(positions@ =~= mesh_positions_spec(
                            *self,
                            cx,
                            cy,
                            cz,
                            blocks,
                            i as int + 1,
                        ));
                        assert(normals@ =~= mesh_normals_spec(
                            *self,
                            cx,
                            cy,
                            cz,
                            blocks,
                            i as int + 1,
                        ));
                        assert(uvs@ =~= mesh_uvs_spec(*self, cx, cy, cz, blocks, i as int + 1));
                        assert(indices@ =~= mesh_indices_spec(
                            *self,
                            cx,
                            cy,
                            cz,
                            blocks,
                            i as int + 1,
                        ));
                    }
                },
                None => {
                    proof {
                        assert(mesh_positions_spec(*self, cx, cy, cz, blocks, i as int + 1)
                            == mesh_positions_spec(*self, cx, cy, cz, blocks, i as int));
                        assert(mesh_normals_spec(*self, cx, cy, cz, blocks, i as int + 1)
                            == mesh_normals_spec(*self, cx, cy, cz, blocks, i as int));
                        assert(mesh_uvs_spec(*self, cx, cy, cz, blocks, i as int + 1)
                            == mesh_uvs_spec(*self, cx, cy, cz, blocks, i as int));
                        assert(mesh_indices_spec(*self, cx, cy, cz, blocks, i as int + 1)
                            == mesh_indices_spec(*self, cx, cy, cz, blocks, i as int));
                    }
                },
            }
            i += 1;
        }
        proof {
            lemma_mesh_buffer_lengths(*self, cx, cy, cz, blocks, 32768);
        }
        Some(MeshData { positions, normals, uvs, indices })
    }
}

} // verus!
