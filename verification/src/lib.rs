//! A voxel world core: fixed-size chunks of optional blocks, a bounded
//! chunk grid with cross-boundary face-visibility resolution, and a
//! deterministic fixed-stride mesh assembler that emits integer-scaled
//! geometry buffers for a renderer to consume.

pub mod block;
pub mod chunk;
pub mod coords;
pub mod mesh;
