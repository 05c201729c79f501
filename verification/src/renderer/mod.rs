pub mod graphics;
pub mod texture;
pub mod buffer;
pub mod material;
pub mod mesh;
pub mod command_buffer;
pub mod thread;
pub mod system;

use vstd::prelude::*;

verus! {

/// The renderer's answer that a mesh is uploaded: the engine's id for it and
/// the renderer's.
#[derive(Debug, Clone, Copy, PartialEq, Eq, Structural)]
pub struct ReadyMeshInfo {
    pub engine_id: u64,
    pub render_mesh_id: u64,
}

/// The side of the checkerboard texture shown where a texture is missing.
pub const CHECKERBOARD_SIZE: usize = 16;

/// The color of the checkerboard at column `x` and row `y`: `on` where
/// exactly one of them is odd, else `off`.
pub open spec fn checker_color(x: int, y: int, on: u32, off: u32) -> u32 {
    if (x % 2 == 1) != (y % 2 == 1) { on } else { off }
}

/// The pixels of the 16 by 16 checkerboard, row by row.
pub fn checkerboard_pixels(on: u32, off: u32) -> (r: Vec<u32>)
    ensures
        r@.len() == CHECKERBOARD_SIZE * CHECKERBOARD_SIZE,
        forall|x: int, y: int|
            0 <= x < CHECKERBOARD_SIZE && 0 <= y < CHECKERBOARD_SIZE ==> #[trigger] r@[y * 16 + x] == checker_color(
                x,
                y,
                on,
                off,
            ),
{
    let mut pixels: Vec<u32> = Vec::new();
    let mut y: usize = 0;
    while y < CHECKERBOARD_SIZE
        invariant
            y <= CHECKERBOARD_SIZE,
            pixels@.len() == y * 16,
            forall|px: int, py: int|
                0 <= px < 16 && 0 <= py < y ==> #[trigger] pixels@[py * 16 + px] == checker_color(px, py, on, off),
        decreases CHECKERBOARD_SIZE - y,
    {
        let mut x: usize = 0;
        while x < CHECKERBOARD_SIZE
            invariant
                y < CHECKERBOARD_SIZE,
                x <= CHECKERBOARD_SIZE,
                pixels@.len() == y * 16 + x,
                forall|px: int, py: int|
                    0 <= px < 16 && 0 <= py < y ==> #[trigger] pixels@[py * 16 + px] == checker_color(px, py, on, off),
                forall|px: int| 0 <= px < x ==> #[trigger] pixels@[y * 16 + px] == checker_color(px, y as int, on, off),
            decreases CHECKERBOARD_SIZE - x,
        {
            let color = if (x % 2) ^ (y % 2) > 0 { on } else { off };
            assert(((x % 2) ^ (y % 2) > 0) == ((x % 2 == 1) != (y % 2 == 1))) by (bit_vector)
                requires
                    x < 16,
                    y < 16,
            ;
            pixels.push(color);
            x = x + 1;
        }
        y = y + 1;
    }
    pixels
}

} // verus!
