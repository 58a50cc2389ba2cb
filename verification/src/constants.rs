//! Fixed sizes of the machine model: memory, stack, registers, display.
use vstd::prelude::*;

verus! {

/// Total bytes of addressable memory.
pub const CHIP8_RAM_MEMORY_SIZE: usize = 4096;

/// Maximum depth of the subroutine stack.
pub const CHIP8_STACK_MEMORY_SIZE: usize = 16;

/// Number of general-purpose V registers.
pub const CHIP8_REGISTER_COUNT: usize = 16;

/// Display width in pixels.
pub const SCREEN_WIDTH: usize = 64;

/// Display height in pixels.
pub const SCREEN_HEIGHT: usize = 32;

/// Side length of the square drawn for one pixel when the framebuffer is scaled up.
pub const SCREEN_SCALE_FACTOR: usize = 10;

/// First address of the program region; ROMs are loaded here and execution starts here.
pub const START_RAM_ADDRESS: u16 = 0x200;

/// First address of the built-in hexadecimal digit sprites, by the usual convention.
pub const FONT_START_ADDRESS: u16 = 0x50;

/// Bytes per digit sprite: each glyph is 5 rows of 8 pixels.
pub const FONT_GLYPH_BYTES: u16 = 5;

/// Total size of the font table: 16 glyphs of 5 bytes each.
pub const FONT_TABLE_BYTES: usize = 80;

/// Number of keys on the hexadecimal keypad.
pub const KEY_COUNT: usize = 16;

} // verus!
