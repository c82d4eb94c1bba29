use voxel_mesh::block::Block;
use voxel_mesh::block::Texture;
use voxel_mesh::chunk::Chunk;

#[test]
fn two_blocks_set_only_their_slots() {
    let mut c = Chunk::new(0, 0, 0);
    c.set_block(Block::new(Texture::Stone), 1, 2, 3);
    c.set_block(Block::new(Texture::Dirt), 31, 30, 29);

    assert_eq!(Chunk::coords_to_index(1, 2, 3), 2145);
    assert!(c.get_block(1, 2, 3).is_some());
    assert!(c.get_block(31, 30, 29).is_some());
    assert!(c.is_block(1, 2, 3));
    assert!(c.is_block(31, 30, 29));

    let occupied_a = Chunk::coords_to_index(1, 2, 3);
    let occupied_b = Chunk::coords_to_index(31, 30, 29);
    for i in 0..32768usize {
        let (x, y, z) = Chunk::index_to_coords(i);
        if i == occupied_a || i == occupied_b {
            assert!(c.is_block(x, y, z));
        } else {
            assert!(!c.is_block(x, y, z));
            assert_eq!(c.get_block(x, y, z), None);
        }
    }
}

#[test]
fn out_of_range_reads_are_absent() {
    let mut c = Chunk::new(0, 0, 0);
    c.set_block(Block::new(Texture::Stone), 0, 0, 0);
    assert_eq!(c.get_block(32, 0, 0), None);
    assert_eq!(c.get_block(0, 32, 0), None);
    assert_eq!(c.get_block(0, 0, 32), None);
    assert_eq!(c.get_block(1000, 1000, 1000), None);
    assert!(!c.is_block(32, 0, 0));
}

#[test]
fn set_block_overwrites() {
    let mut c = Chunk::new(0, 0, 0);
    c.set_block(Block::new(Texture::Stone), 4, 4, 4);
    c.set_block(Block::new(Texture::Brick), 4, 4, 4);
    assert_eq!(c.get_block(4, 4, 4), Some(Block(7)));
}

#[test]
fn new_chunk_is_empty_and_unspawned() {
    let c = Chunk::new(1, -2, 3);
    assert_eq!((c.x, c.y, c.z), (1, -2, 3));
    assert!(!c.spawned);
    for i in 0..32768usize {
        let (x, y, z) = Chunk::index_to_coords(i);
        assert_eq!(c.get_block(x, y, z), None);
    }
}
