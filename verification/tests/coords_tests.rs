use voxel_mesh::chunk::Chunk;
use voxel_mesh::chunk::ChunkGrid;

#[test]
fn local_index_roundtrip_all() {
    for lx in 0..32u16 {
        for ly in 0..32u16 {
            for lz in 0..32u16 {
                let i = Chunk::coords_to_index(lx, ly, lz);
                assert!(i < 32768);
                let (x, y, z) = Chunk::index_to_coords(i);
                assert_eq!((lx as usize, ly as usize, lz as usize), (x, y, z));
            }
        }
    }
}

#[test]
fn world_roundtrip_including_negative() {
    for w in -1000..1000i32 {
        let (cx, cy, cz) = ChunkGrid::convert_to_chunk_coords(w, w, w);
        let (bx, by, bz) = ChunkGrid::convert_to_block_coords(w, w, w);
        assert_eq!(cx, cy);
        assert_eq!(cx, cz);
        assert_eq!(bx, by);
        assert_eq!(bx, bz);
        assert!(bx < 32);
        assert_eq!(cx * 32 + bx as i32, w);
    }
}

#[test]
fn world_minus_one_is_chunk_minus_one_local_31() {
    let (cx, _, _) = ChunkGrid::convert_to_chunk_coords(-1, 0, 0);
    let (bx, _, _) = ChunkGrid::convert_to_block_coords(-1, 0, 0);
    assert_eq!(cx, -1);
    assert_eq!(bx, 31);

    let (cx, _, _) = ChunkGrid::convert_to_chunk_coords(-32, 0, 0);
    let (bx, _, _) = ChunkGrid::convert_to_block_coords(-32, 0, 0);
    assert_eq!(cx, -1);
    assert_eq!(bx, 0);

    let (cx, _, _) = ChunkGrid::convert_to_chunk_coords(-33, 0, 0);
    let (bx, _, _) = ChunkGrid::convert_to_block_coords(-33, 0, 0);
    assert_eq!(cx, -2);
    assert_eq!(bx, 31);
}

#[test]
fn chunk_local_recombine_to_world() {
    let (wx, wy, wz) = ChunkGrid::convert_to_world_coords(-1, 0, 2, 31, 0, 5);
    assert_eq!((wx, wy, wz), (-1, 0, 69));
}

#[test]
fn block_coords_in_chunk_matches_local_conversion() {
    assert_eq!(ChunkGrid::block_coords_in_chunk(-1, 33, 64), (31, 1, 0));
}

#[test]
fn grid_index_roundtrip_all() {
    for cx in -16..16i16 {
        for cy in -16..16i16 {
            for cz in -16..16i16 {
                let i = ChunkGrid::chunk_coords_to_index(cx, cy, cz).unwrap();
                assert!(i < 32768);
                let back = ChunkGrid::chunk_index_to_coords(i).unwrap();
                assert_eq!((cx, cy, cz), back);
            }
        }
    }
}

#[test]
fn grid_index_rejects_out_of_range() {
    assert_eq!(ChunkGrid::chunk_coords_to_index(16, 0, 0), None);
    assert_eq!(ChunkGrid::chunk_coords_to_index(0, -17, 0), None);
    assert_eq!(ChunkGrid::chunk_coords_to_index(0, 0, 100), None);
    assert_eq!(ChunkGrid::chunk_index_to_coords(32768), None);
    assert_eq!(
        ChunkGrid::chunk_index_to_coords(0),
        Some((-16, -16, -16))
    );
    assert_eq!(
        ChunkGrid::chunk_coords_to_index(0, 0, 0),
        Some(16 + 16 * 32 + 16 * 1024)
    );
}
