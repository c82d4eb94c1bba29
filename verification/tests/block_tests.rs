use voxel_mesh::block::Block;
use voxel_mesh::block::Texture;

#[test]
fn texture_codes_roundtrip() {
    let named = [
        (Texture::Grass, 0u8),
        (Texture::Stone, 1),
        (Texture::Dirt, 2),
        (Texture::Plank, 4),
        (Texture::Slab, 5),
        (Texture::Brick, 7),
        (Texture::Tnt, 8),
        (Texture::Cobweb, 11),
        (Texture::Cobblestone, 16),
        (Texture::Log, 20),
    ];
    for (t, code) in named {
        let b = Block::new(t);
        assert_eq!(b.0, code);
        assert_eq!(b.get_texture(), t);
    }
    assert_eq!(Block::new(Texture::Missing).0, 254);
    assert_eq!(Block(3).get_texture(), Texture::Missing);
    assert_eq!(Block(255).get_texture(), Texture::Missing);
}

#[test]
fn grass_uv_table_is_exact() {
    let uv = Block(0).get_texture_uv();
    assert_eq!(uv.len(), 24);
    // Top face: tile column 3, row 0.
    assert_eq!(&uv[0..4], &[(4, 1), (3, 1), (3, 0), (4, 0)]);
    // Bottom face: same side tile, wound for the bottom template.
    assert_eq!(&uv[4..8], &[(3, 0), (4, 0), (4, 1), (3, 1)]);
    // Front face: tile column 0.
    assert_eq!(&uv[16..20], &[(1, 0), (0, 0), (0, 1), (1, 1)]);
    // Back face: tile column 2.
    assert_eq!(&uv[20..24], &[(2, 0), (3, 0), (3, 1), (2, 1)]);
}

#[test]
fn tnt_top_tile_is_mirrored() {
    let uv = Block(8).get_texture_uv();
    // The top rectangle runs from u=9 to u=8, mirroring the tile.
    assert_eq!(&uv[0..4], &[(8, 1), (9, 1), (9, 0), (8, 0)]);
    // The right face uses the unmirrored side tile.
    assert_eq!(&uv[8..12], &[(9, 1), (9, 0), (8, 0), (8, 1)]);
}

#[test]
fn unknown_code_falls_back_to_its_atlas_cell() {
    // Code 33: column 33 % 16 = 1, row 33 / 16 = 2.
    let uv = Block(33).get_texture_uv();
    assert_eq!(&uv[0..4], &[(2, 3), (1, 3), (1, 2), (2, 2)]);
    // Code 255: column 15, row 15 — the last cell, still in range.
    let uv = Block(255).get_texture_uv();
    assert_eq!(uv[2], (15, 15));
    assert_eq!(uv[0], (16, 16));
}

#[test]
fn log_uses_second_atlas_row() {
    let uv = Block(20).get_texture_uv();
    // Sides: tile column 4, row 1; front and back: column 5, row 1.
    assert_eq!(&uv[0..4], &[(5, 2), (4, 2), (4, 1), (5, 1)]);
    assert_eq!(&uv[16..20], &[(6, 1), (5, 1), (5, 2), (6, 2)]);
}
