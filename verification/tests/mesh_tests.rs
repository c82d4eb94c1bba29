use voxel_mesh::block::Block;
use voxel_mesh::block::Texture;
use voxel_mesh::chunk::Chunk;
use voxel_mesh::chunk::ChunkGrid;

#[test]
fn missing_chunk_is_a_reported_error() {
    let g = ChunkGrid::new();
    assert_eq!(g.generate_mesh(0, 0, 0), None);
    assert_eq!(g.generate_mesh(100, 0, 0), None);
}

#[test]
fn buffer_lengths_are_fixed_per_occupied_voxel() {
    let mut g = ChunkGrid::new();
    let mut c = Chunk::new(0, 0, 0);
    c.set_block(Block::new(Texture::Stone), 1, 1, 1);
    c.set_block(Block::new(Texture::Stone), 2, 1, 1);
    c.set_block(Block::new(Texture::Grass), 30, 30, 30);
    assert!(g.set_chunk(c));
    let m = g.generate_mesh(0, 0, 0).unwrap();
    // Three occupied voxels: exactly 3*24 vertex entries and 3*36
    // indices, however many faces are hidden.
    assert_eq!(m.positions.len(), 72);
    assert_eq!(m.normals.len(), 72);
    assert_eq!(m.uvs.len(), 72);
    assert_eq!(m.indices.len(), 108);
}

#[test]
fn empty_chunk_meshes_to_empty_buffers() {
    let mut g = ChunkGrid::new();
    assert!(g.set_chunk(Chunk::new(0, 0, 0)));
    let m = g.generate_mesh(0, 0, 0).unwrap();
    assert_eq!(m.positions.len(), 0);
    assert_eq!(m.normals.len(), 0);
    assert_eq!(m.uvs.len(), 0);
    assert_eq!(m.indices.len(), 0);
}

#[test]
fn meshing_twice_is_byte_identical() {
    let mut g = ChunkGrid::new();
    let mut c = Chunk::new(0, 0, 0);
    c.set_block(Block::new(Texture::Grass), 0, 0, 0);
    c.set_block(Block::new(Texture::Log), 1, 0, 0);
    c.set_block(Block::new(Texture::Tnt), 31, 31, 31);
    assert!(g.set_chunk(c));
    let m1 = g.generate_mesh(0, 0, 0).unwrap();
    let m2 = g.generate_mesh(0, 0, 0).unwrap();
    assert_eq!(m1, m2);
}

#[test]
fn lone_voxel_geometry_is_exact() {
    let mut g = ChunkGrid::new();
    let mut c = Chunk::new(0, 0, 0);
    c.set_block(Block::new(Texture::Grass), 0, 0, 0);
    assert!(g.set_chunk(c));
    let m = g.generate_mesh(0, 0, 0).unwrap();
    assert_eq!(m.positions.len(), 24);
    assert_eq!(m.indices.len(), 36);

    // Top face of the cube at world (0,0,0): corners in half-voxel
    // units around the voxel center.
    assert_eq!(m.positions[0], (-1, -1, 1));
    assert_eq!(m.positions[1], (1, -1, 1));
    assert_eq!(m.positions[2], (1, 1, 1));
    assert_eq!(m.positions[3], (-1, 1, 1));
    assert_eq!(m.normals[0], (0, 0, 1));
    assert_eq!(m.normals[4], (0, 0, -1));
    assert_eq!(m.normals[8], (1, 0, 0));
    assert_eq!(m.normals[12], (-1, 0, 0));
    assert_eq!(m.normals[16], (0, 1, 0));
    assert_eq!(m.normals[20], (0, -1, 0));

    // Grass: side faces use the tile at column 3, front the tile at
    // column 0, back the tile at column 2, all in sixteenths.
    assert_eq!(m.uvs[0], (4, 1));
    assert_eq!(m.uvs[1], (3, 1));
    assert_eq!(m.uvs[2], (3, 0));
    assert_eq!(m.uvs[3], (4, 0));
    assert_eq!(m.uvs[16], (1, 0));
    assert_eq!(m.uvs[20], (2, 0));

    // Two triangles per face over that face's four corners.
    assert_eq!(&m.indices[0..6], &[0, 1, 2, 2, 3, 0]);
    assert_eq!(&m.indices[6..12], &[4, 5, 6, 6, 7, 4]);
    assert_eq!(&m.indices[30..36], &[20, 21, 22, 22, 23, 20]);
}

#[test]
fn hidden_faces_emit_degenerate_entries() {
    let mut g = ChunkGrid::new();
    let mut c = Chunk::new(0, 0, 0);
    c.set_block(Block::new(Texture::Stone), 5, 5, 5);
    c.set_block(Block::new(Texture::Stone), 6, 5, 5);
    assert!(g.set_chunk(c));
    let m = g.generate_mesh(0, 0, 0).unwrap();
    assert_eq!(m.positions.len(), 48);
    assert_eq!(m.indices.len(), 72);

    // The first voxel in slot order is (5,5,5); its right face (face 2,
    // vertex entries 8..12, index entries 12..18) is hidden.
    for t in 8..12 {
        assert_eq!(m.positions[t], (0, 0, 0));
        assert_eq!(m.normals[t], (0, 0, 0));
        assert_eq!(m.uvs[t], (0, 0));
    }
    assert_eq!(&m.indices[12..18], &[0, 0, 0, 0, 0, 0]);
    // Its top face is visible, offset by the voxel's world position.
    assert_eq!(m.positions[0], (2 * 5 - 1, 2 * 5 - 1, 2 * 5 + 1));

    // The second voxel (6,5,5) hides its left face (face 3, vertex
    // entries 24+12..24+16, index entries 36+18..36+24) and its real
    // indices address its own 24-vertex block at base 24.
    for t in 36..40 {
        assert_eq!(m.positions[t], (0, 0, 0));
    }
    assert_eq!(&m.indices[54..60], &[0, 0, 0, 0, 0, 0]);
    assert_eq!(&m.indices[36..42], &[24, 25, 26, 26, 27, 24]);
}

#[test]
fn negative_chunk_coordinates_offset_geometry() {
    let mut g = ChunkGrid::new();
    let mut c = Chunk::new(-1, 0, 0);
    c.set_block(Block::new(Texture::Stone), 31, 0, 0);
    assert!(g.set_chunk(c));
    let m = g.generate_mesh(-1, 0, 0).unwrap();
    // The voxel sits at world (-1, 0, 0): twice that, plus the corner.
    assert_eq!(m.positions[0], (-3, -1, 1));
    assert_eq!(m.positions[1], (-1, -1, 1));
}

#[test]
fn fully_solid_chunk_mesh_has_full_stride() {
    let mut g = ChunkGrid::new();
    let mut c = Chunk::new(0, 0, 0);
    for x in 0..32 {
        for y in 0..32 {
            for z in 0..32 {
                c.set_block(Block::new(Texture::Stone), x, y, z);
            }
        }
    }
    assert!(g.set_chunk(c));
    let m = g.generate_mesh(0, 0, 0).unwrap();
    assert_eq!(m.positions.len(), 32768 * 24);
    assert_eq!(m.normals.len(), 32768 * 24);
    assert_eq!(m.uvs.len(), 32768 * 24);
    assert_eq!(m.indices.len(), 32768 * 36);
}
