//! Blocks and the material catalog.
//!
//! A block is a single-byte material code; an empty voxel is the absence
//! of a block, not a code. The catalog maps a code to a 24-entry table of
//! texture-atlas corner coordinates: 4 corners for each of the 6 cube
//! faces, in the fixed face order top, bottom, right, left, front, back.
//!
//! Atlas coordinates are kept in sixteenths of the atlas (the atlas is a
//! 16 x 16 grid of tiles), so every entry is an integer in `[0, 16]`; a
//! renderer divides by 16 to obtain normalized texture coordinates. The
//! catalog is total: a handful of codes have bespoke tile assignments and
//! every other code falls back to the atlas cell at column `code % 16`,
//! row `code / 16`.

use vstd::prelude::*;

verus! {

/// The material occupying a voxel, as a single-byte code.
#[derive(Clone, Copy, PartialEq, Eq, Structural, Debug)]
pub struct Block(pub u8);

/// The named materials the catalog knows bespoke codes for.
#[derive(Clone, Copy, PartialEq, Eq, Structural, Debug)]
pub enum Texture {
    Grass,
    Stone,
    Dirt,
    Plank,
    Slab,
    Brick,
    Tnt,
    Cobweb,
    Cobblestone,
    Log,
    Missing,
}

/// The material code of each named texture.
pub open spec fn texture_code_spec(t: Texture) -> u8 {
    match t {
        Texture::Grass => 0,
        Texture::Stone => 1,
        Texture::Dirt => 2,
        Texture::Plank => 4,
        Texture::Slab => 5,
        Texture::Brick => 7,
        Texture::Tnt => 8,
        Texture::Cobweb => 11,
        Texture::Cobblestone => 16,
        Texture::Log => 20,
        Texture::Missing => 254,
    }
}

/// The named texture of a material code; codes without a name decode to
/// `Missing`.
pub open spec fn texture_of_code_spec(code: u8) -> Texture {
    if code == 0 {
        Texture::Grass
    } else if code == 1 {
        Texture::Stone
    } else if code == 2 {
        Texture::Dirt
    } else if code == 4 {
        Texture::Plank
    } else if code == 5 {
        Texture::Slab
    } else if code == 7 {
        Texture::Brick
    } else if code == 8 {
        Texture::Tnt
    } else if code == 11 {
        Texture::Cobweb
    } else if code == 16 {
        Texture::Cobblestone
    } else if code == 20 {
        Texture::Log
    } else {
        Texture::Missing
    }
}

/// The atlas rectangle of one cube face of one material, in sixteenths:
/// (left u, right u, low v, high v). Faces are numbered 0 top, 1 bottom,
/// 2 right, 3 left, 4 front, 5 back.
pub open spec fn atlas_rect_spec(code: u8, f: int) -> (u8, u8, u8, u8) {
    if code == 0 {
        if f < 4 {
            (3, 4, 0, 1)
        } else if f == 4 {
            (0, 1, 0, 1)
        } else {
            (2, 3, 0, 1)
        }
    } else if code == 5 {
        if f < 4 {
            (5, 6, 0, 1)
        } else {
            (6, 7, 0, 1)
        }
    } else if code == 8 {
        if f < 2 {
            (9, 8, 0, 1)
        } else if f < 4 {
            (8, 9, 0, 1)
        } else if f == 4 {
            (9, 10, 0, 1)
        } else {
            (10, 11, 0, 1)
        }
    } else if code == 20 {
        if f < 4 {
            (4, 5, 1, 2)
        } else {
            (5, 6, 1, 2)
        }
    } else {
        (code % 16, ((code % 16) + 1) as u8, code / 16, ((code / 16) + 1) as u8)
    }
}

/// Entry `t` of a material's 24-entry corner table: face `t / 4`, corner
/// `t % 4` of that face's atlas rectangle, in the per-face winding the
/// mesh assembler's vertex template expects.
pub open spec fn uv_entry_spec(code: u8, t: int) -> (u8, u8) {
    let f = t / 4;
    let k = t % 4;
    let rect = atlas_rect_spec(code, f);
    let u0 = rect.0;
    let u1 = rect.1;
    let v0 = rect.2;
    let v1 = rect.3;
    if f == 0 {
        if k == 0 {
            (u1, v1)
        } else if k == 1 {
            (u0, v1)
        } else if k == 2 {
            (u0, v0)
        } else {
            (u1, v0)
        }
    } else if f == 1 || f == 5 {
        if k == 0 {
            (u0, v0)
        } else if k == 1 {
            (u1, v0)
        } else if k == 2 {
            (u1, v1)
        } else {
            (u0, v1)
        }
    } else if f == 2 || f == 3 {
        if k == 0 {
            (u1, v1)
        } else if k == 1 {
            (u1, v0)
        } else if k == 2 {
            (u0, v0)
        } else {
            (u0, v1)
        }
    } else {
        if k == 0 {
            (u1, v0)
        } else if k == 1 {
            (u0, v0)
        } else if k == 2 {
            (u0, v1)
        } else {
            (u1, v1)
        }
    }
}

impl Block {
    /// A block of the given named material.
    pub fn new(texture: Texture) -> (b: Block)
        ensures
            b.0 == texture_code_spec(texture),
    {
        match texture {
            Texture::Grass => Block(0),
            Texture::Stone => Block(1),
            Texture::Dirt => Block(2),
            Texture::Plank => Block(4),
            Texture::Slab => Block(5),
            Texture::Brick => Block(7),
            Texture::Tnt => Block(8),
            Texture::Cobweb => Block(11),
            Texture::Cobblestone => Block(16),
            Texture::Log => Block(20),
            Texture::Missing => Block(254),
        }
    }

    /// The named material of this block's code, `Missing` when the code
    /// has no name.
    pub fn get_texture(&self) -> (t: Texture)
        ensures
            t == texture_of_code_spec(self.0),
    {
        match self.0 {
            0 => Texture::Grass,
            1 => Texture::Stone,
            2 => Texture::Dirt,
            4 => Texture::Plank,
            5 => Texture::Slab,
            7 => Texture::Brick,
            8 => Texture::Tnt,
            11 => Texture::Cobweb,
            16 => Texture::Cobblestone,
            20 => Texture::Log,
            _ => Texture::Missing,
        }
    }

    /// The full 24-entry atlas corner table of this block's material, in
    /// sixteenths of the atlas. Total over every code: unknown codes use
    /// the formulaic fallback cell.
    pub fn get_texture_uv(&self) -> (uv: Vec<(u8, u8)>)
        ensures
            uv@.len() == 24,
            forall|t: int| 0 <= t < 24 ==> uv@[t] == uv_entry_spec(self.0, t),
    {
        let mut uv: Vec<(u8, u8)> = Vec::new();
        let mut t: usize = 0;
        while t < 24
            invariant
                t <= 24,
                uv@.len() == t,
                forall|j: int| 0 <= j < t ==> uv@[j] == uv_entry_spec(self.0, j),
            decreases 24 - t,
        {
            let e = uv_corner(self.0, t);
            uv.push(e);
            t += 1;
        }
        uv
    }
}

/// One entry of the corner table, executably.
fn uv_corner(code: u8, t: usize) -> (e: (u8, u8))
    requires
        t < 24,
    ensures
        e == uv_entry_spec(code, t as int),
{
    let f: usize = t / 4;
    let k: usize = t % 4;
    let (u0, u1, v0, v1) = atlas_rect(code, f);
    if f == 0 {
        if k == 0 {
            (u1, v1)
        } else if k == 1 {
            (u0, v1)
        } else if k == 2 {
            (u0, v0)
        } else {
            (u1, v0)
        }
    } else if f == 1 || f == 5 {
        if k == 0 {
            (u0, v0)
        } else if k == 1 {
            (u1, v0)
        } else if k == 2 {
            (u1, v1)
        } else {
            (u0, v1)
        }
    } else if f == 2 || f == 3 {
        if k == 0 {
            (u1, v1)
        } else if k == 1 {
            (u1, v0)
        } else if k == 2 {
            (u0, v0)
        } else {
            (u0, v1)
        }
    } else {
        if k == 0 {
            (u1, v0)
        } else if k == 1 {
            (u0, v0)
        } else if k == 2 {
            (u0, v1)
        } else {
            (u1, v1)
        }
    }
}

/// The atlas rectangle of one face, executably.
fn atlas_rect(code: u8, f: usize) -> (r: (u8, u8, u8, u8))
    requires
        f < 6,
    ensures
        r == atlas_rect_spec(code, f as int),
{
    match code {
        0 => {
            if f < 4 {
                (3, 4, 0, 1)
            } else if f == 4 {
                (0, 1, 0, 1)
            } else {
                (2, 3, 0, 1)
            }
        },
        5 => {
            if f < 4 {
                (5, 6, 0, 1)
            } else {
                (6, 7, 0, 1)
            }
        },
        8 => {
            if f < 2 {
                (9, 8, 0, 1)
            } else if f < 4 {
                (8, 9, 0, 1)
            } else if f == 4 {
                (9, 10, 0, 1)
            } else {
                (10, 11, 0, 1)
            }
        },
        20 => {
            if f < 4 {
                (4, 5, 1, 2)
            } else {
                (5, 6, 1, 2)
            }
        },
        _ => {
            let col = code % 16;
            let row = code / 16;
            (col, col + 1, row, row + 1)
        },
    }
}

} // verus!
