use voxel_mesh::block::Block;
use voxel_mesh::chunk::Chunk;

#[test]
fn chunk_calculations() {
    assert_eq!(0, Chunk::coords_to_index(0, 0, 0));
    assert_eq!(1, Chunk::coords_to_index(1, 0, 0));
    assert_eq!(32, Chunk::coords_to_index(0, 0, 1));
    assert_eq!(1024, Chunk::coords_to_index(0, 1, 0));
    assert_eq!(1025, Chunk::coords_to_index(1, 1, 0));

    assert_eq!((0, 0, 0), Chunk::index_to_coords(0));
    assert_eq!((1, 0, 0), Chunk::index_to_coords(1));
    assert_eq!((0, 0, 1), Chunk::index_to_coords(32));
    assert_eq!((0, 1, 0), Chunk::index_to_coords(1024));
    assert_eq!((1, 1, 0), Chunk::index_to_coords(1025));

    let mut c = Chunk::new(0, 0, 0);

    c.set_block(Block(0), 1, 2, 3);
    assert_ne!(None, c.get_block(1, 2, 3));
    assert_eq!(Some(Block(0)), c.get_block(1, 2, 3));
    assert_eq!(2145, Chunk::coords_to_index(1, 2, 3));
    assert_eq!((1, 2, 3), Chunk::index_to_coords(2145));

    let mut c = Chunk::new(0, 0, 0);

    c.set_block(Block(0), 31, 30, 29);
    assert_ne!(None, c.get_block(31, 30, 29));
    assert_eq!(Some(Block(0)), c.get_block(31, 30, 29));
    assert_eq!(31679, Chunk::coords_to_index(31, 30, 29));
    assert_eq!((31, 30, 29), Chunk::index_to_coords(31679));
}
