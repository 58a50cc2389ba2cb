//! Turning the boolean framebuffer into a scaled pixel buffer.
//!
//! Pure computation only: putting the buffer on an actual window is the
//! host's business.
use vstd::prelude::*;

use crate::chip8::Chip8;
use crate::constants::{SCREEN_HEIGHT, SCREEN_SCALE_FACTOR, SCREEN_WIDTH};

verus! {

/// Number of u32 cells in the scaled pixel buffer.
pub const SCALED_BUFFER_LEN: usize = SCREEN_WIDTH * SCREEN_SCALE_FACTOR * SCREEN_HEIGHT
    * SCREEN_SCALE_FACTOR;

/// The color a framebuffer pixel paints its block with: white for a set
/// pixel, black for an unset one.
pub open spec fn pixel_color(on: bool) -> u32 {
    if on {
        0xFFFFFF
    } else {
        0x000000
    }
}

/// Row-major index of a scaled coordinate in the pixel buffer.
pub open spec fn scaled_index(scaled_y: int, scaled_x: int) -> int {
    scaled_y * (SCREEN_WIDTH * SCREEN_SCALE_FACTOR) as int + scaled_x
}

/// The buffer cell that framebuffer pixel (y, x) paints at block offset
/// (dy, dx).
pub open spec fn block_index(y: int, x: int, dy: int, dx: int) -> int {
    scaled_index(y * SCREEN_SCALE_FACTOR as int + dy, x * SCREEN_SCALE_FACTOR as int + dx)
}

/// A fresh all-black scaled pixel buffer.
pub fn initialize_buffer() -> (buffer: Vec<u32>)
    ensures
        buffer@ == Seq::new(SCALED_BUFFER_LEN as nat, |i: int| 0u32),
{
    let mut buffer: Vec<u32> = Vec::new();
    let mut k: usize = 0;
    while k < SCALED_BUFFER_LEN
        invariant
            k <= SCALED_BUFFER_LEN,
            buffer@.len() == k,
            forall|i: int| 0 <= i < k ==> buffer@[i] == 0u32,
        decreases SCALED_BUFFER_LEN - k,
    {
        buffer.push(0);
        k += 1;
    }
    proof {
        assert(buffer@ =~= Seq::new(SCALED_BUFFER_LEN as nat, |i: int| 0u32));
    }
    buffer
}

/// Redraw the scaled buffer from the framebuffer, but only when it is
/// marked dirty: each framebuffer pixel paints its whole scale-factor
/// square block.  A clean framebuffer leaves the buffer untouched.
#[verifier::loop_isolation(false)]
pub fn draw_screen_if_needed(buffer: &mut Vec<u32>, chip8: &Chip8)
    requires
        chip8.wf(),
        old(buffer)@.len() == SCALED_BUFFER_LEN,
    ensures
        final(buffer)@.len() == SCALED_BUFFER_LEN,
        !chip8@.needs_redraw ==> final(buffer)@ == old(buffer)@,
        chip8@.needs_redraw ==> forall|y: int, x: int, dy: int, dx: int|
            0 <= y < SCREEN_HEIGHT && 0 <= x < SCREEN_WIDTH && 0 <= dy < SCREEN_SCALE_FACTOR
                && 0 <= dx < SCREEN_SCALE_FACTOR ==> final(buffer)@[#[trigger] block_index(y, x, dy, dx)] == pixel_color(chip8@.screen[y * SCREEN_WIDTH + x]),
{
    if chip8.needs_redraw {
        let mut y: usize = 0;
        while y < SCREEN_HEIGHT
            invariant
                y <= SCREEN_HEIGHT,
                buffer@.len() == SCALED_BUFFER_LEN,
                forall|yy: int, xx: int, dyy: int, dxx: int|
                    0 <= yy < y && 0 <= xx < SCREEN_WIDTH && 0 <= dyy < SCREEN_SCALE_FACTOR
                        && 0 <= dxx < SCREEN_SCALE_FACTOR ==> buffer@[#[trigger] block_index(yy, xx, dyy, dxx)] == pixel_color(chip8@.screen[yy * SCREEN_WIDTH + xx]),
            decreases SCREEN_HEIGHT - y,
        {
            let mut x: usize = 0;
            while x < SCREEN_WIDTH
                invariant
                    x <= SCREEN_WIDTH,
                    buffer@.len() == SCALED_BUFFER_LEN,
                    forall|yy: int, xx: int, dyy: int, dxx: int|
                        0 <= yy < y && 0 <= xx < SCREEN_WIDTH && 0 <= dyy < SCREEN_SCALE_FACTOR
                            && 0 <= dxx < SCREEN_SCALE_FACTOR ==> buffer@[#[trigger] block_index(yy, xx, dyy, dxx)] == pixel_color(chip8@.screen[yy * SCREEN_WIDTH + xx]),
                    forall|xx: int, dyy: int, dxx: int|
                        0 <= xx < x && 0 <= dyy < SCREEN_SCALE_FACTOR && 0 <= dxx
                            < SCREEN_SCALE_FACTOR ==> buffer@[#[trigger] block_index(y as int, xx, dyy, dxx)] == pixel_color(chip8@.screen[y * SCREEN_WIDTH + xx]),
                decreases SCREEN_WIDTH - x,
            {
                let pixel_on = chip8.screen[y * SCREEN_WIDTH + x];
                let color: u32 = if pixel_on {
                    0xFFFFFF
                } else {
                    0x000000
                };
                let mut dy: usize = 0;
                while dy < SCREEN_SCALE_FACTOR
                    invariant
                        dy <= SCREEN_SCALE_FACTOR,
                        buffer@.len() == SCALED_BUFFER_LEN,
                        color == pixel_color(chip8@.screen[y * SCREEN_WIDTH + x]),
                        forall|yy: int, xx: int, dyy: int, dxx: int|
                            0 <= yy < y && 0 <= xx < SCREEN_WIDTH && 0 <= dyy < SCREEN_SCALE_FACTOR
                                && 0 <= dxx < SCREEN_SCALE_FACTOR ==> buffer@[#[trigger] block_index(yy, xx, dyy, dxx)] == pixel_color(chip8@.screen[yy * SCREEN_WIDTH + xx]),
                        forall|xx: int, dyy: int, dxx: int|
                            0 <= xx < x && 0 <= dyy < SCREEN_SCALE_FACTOR && 0 <= dxx
                                < SCREEN_SCALE_FACTOR ==> buffer@[#[trigger] block_index(y as int, xx, dyy, dxx)] == pixel_color(chip8@.screen[y * SCREEN_WIDTH + xx]),
                        forall|dyy: int, dxx: int|
                            0 <= dyy < dy && 0 <= dxx < SCREEN_SCALE_FACTOR
                                ==> buffer@[#[trigger] block_index(y as int, x as int, dyy, dxx)] == pixel_color(chip8@.screen[y * SCREEN_WIDTH + x]),
                    decreases SCREEN_SCALE_FACTOR - dy,
                {
                    let mut dx: usize = 0;
                    while dx < SCREEN_SCALE_FACTOR
                        invariant
                            dx <= SCREEN_SCALE_FACTOR,
                            buffer@.len() == SCALED_BUFFER_LEN,
                            color == pixel_color(chip8@.screen[y * SCREEN_WIDTH + x]),
                            forall|yy: int, xx: int, dyy: int, dxx: int|
                                0 <= yy < y && 0 <= xx < SCREEN_WIDTH && 0 <= dyy
                                    < SCREEN_SCALE_FACTOR && 0 <= dxx < SCREEN_SCALE_FACTOR
                                    ==> buffer@[#[trigger] block_index(yy, xx, dyy, dxx)] == pixel_color(chip8@.screen[yy * SCREEN_WIDTH + xx]),
                            forall|xx: int, dyy: int, dxx: int|
                                0 <= xx < x && 0 <= dyy < SCREEN_SCALE_FACTOR && 0 <= dxx
                                    < SCREEN_SCALE_FACTOR ==> buffer@[#[trigger] block_index(y as int, xx, dyy, dxx)] == pixel_color(chip8@.screen[y * SCREEN_WIDTH + xx]),
                            forall|dyy: int, dxx: int|
                                0 <= dyy < dy && 0 <= dxx < SCREEN_SCALE_FACTOR
                                    ==> buffer@[#[trigger] block_index(y as int, x as int, dyy, dxx)] == pixel_color(chip8@.screen[y * SCREEN_WIDTH + x]),
                            forall|dxx: int|
                                0 <= dxx < dx ==> buffer@[#[trigger] block_index(y as int, x as int, dy as int, dxx)] == pixel_color(chip8@.screen[y * SCREEN_WIDTH + x]),
                        decreases SCREEN_SCALE_FACTOR - dx,
                    {
                        let scaled_x = x * SCREEN_SCALE_FACTOR + dx;
                        let scaled_y = y * SCREEN_SCALE_FACTOR + dy;
                        let buffer_index = scaled_y * (SCREEN_WIDTH * SCREEN_SCALE_FACTOR)
                            + scaled_x;
                        buffer[buffer_index] = color;
                        dx += 1;
                    }
                    dy += 1;
                }
                x += 1;
            }
            y += 1;
        }
    }
}

} // verus!
