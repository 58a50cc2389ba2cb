//! The sprite blit, the collision rule, the framebuffer, and the scaled
//! pixel buffer.
use chip8::chip8::{Chip8, Chip8Error};
use chip8::instruction::{decode, Instruction};
use chip8::screen::{draw_screen_if_needed, initialize_buffer};

fn exec(c: &mut Chip8, op: u16) {
    c.decode_execute(op).expect("instruction should succeed");
}

/// Put a one-row sprite `byte` at memory 0x300 and draw it at (vx, vy).
fn draw_one_row(c: &mut Chip8, byte: u8, vx: u8, vy: u8) {
    c.ram[0x300] = byte;
    c.i_register = 0x300;
    c.v_registers[0] = vx;
    c.v_registers[1] = vy;
    exec(c, 0xD011);
}

#[test]
fn cls_unsets_every_pixel_and_marks_dirty() {
    let mut c = Chip8::new();
    draw_one_row(&mut c, 0xFF, 0, 0);
    c.needs_redraw = false;
    exec(&mut c, 0x00E0);
    assert!(c.screen.iter().all(|&p| !p));
    assert!(c.needs_redraw);
}

#[test]
fn draw_sets_pixels_and_reports_collisions_on_erasure() {
    // An all-ones row at (0,0) sets pixels (0,0)..(7,0); drawing it
    // again clears them with VF=1; a third draw sets them with VF=0.
    let mut c = Chip8::new();
    draw_one_row(&mut c, 0xFF, 0, 0);
    for x in 0..8 {
        assert!(c.screen[x]);
    }
    assert!(c.screen[8..].iter().all(|&p| !p));
    assert_eq!(c.v_registers[0xF], 0);
    assert!(c.needs_redraw);

    draw_one_row(&mut c, 0xFF, 0, 0);
    assert!(c.screen.iter().all(|&p| !p));
    assert_eq!(c.v_registers[0xF], 1);

    draw_one_row(&mut c, 0xFF, 0, 0);
    for x in 0..8 {
        assert!(c.screen[x]);
    }
    assert_eq!(c.v_registers[0xF], 0);
}

#[test]
fn overlap_without_erasure_is_no_collision() {
    let mut c = Chip8::new();
    draw_one_row(&mut c, 0xF0, 0, 0);
    // 0x0F overlaps the same row bytes but erases nothing.
    draw_one_row(&mut c, 0x0F, 0, 0);
    assert_eq!(c.v_registers[0xF], 0);
    for x in 0..8 {
        assert!(c.screen[x]);
    }
}

#[test]
fn sprite_wraps_horizontally_per_pixel() {
    // A row drawn at x=60 lands on screen_x in {60,61,62,63,0,1,2,3}.
    let mut c = Chip8::new();
    draw_one_row(&mut c, 0xFF, 60, 0);
    for x in [60usize, 61, 62, 63, 0, 1, 2, 3] {
        assert!(c.screen[x], "pixel at x={x} should be set");
    }
    for x in 4..60 {
        assert!(!c.screen[x], "pixel at x={x} should be unset");
    }
}

#[test]
fn sprite_wraps_vertically_per_pixel() {
    let mut c = Chip8::new();
    c.ram[0x300] = 0x80;
    c.ram[0x301] = 0x80;
    c.i_register = 0x300;
    c.v_registers[0] = 0;
    c.v_registers[1] = 31;
    exec(&mut c, 0xD012);
    assert!(c.screen[31 * 64]);
    assert!(c.screen[0]);
}

#[test]
fn draw_reading_past_memory_end_is_an_error() {
    let mut c = Chip8::new();
    c.i_register = 4090;
    assert_eq!(c.decode_execute(0xD01F), Err(Chip8Error::MemoryOutOfBounds));
    assert!(!c.needs_redraw);
}

#[test]
fn tall_sprites_draw_one_byte_per_row() {
    let mut c = Chip8::new();
    c.ram[0x300] = 0b1100_0000;
    c.ram[0x301] = 0b0011_0000;
    c.i_register = 0x300;
    c.v_registers[2] = 4;
    c.v_registers[3] = 10;
    exec(&mut c, 0xD232);
    assert!(c.screen[10 * 64 + 4]);
    assert!(c.screen[10 * 64 + 5]);
    assert!(c.screen[11 * 64 + 6]);
    assert!(c.screen[11 * 64 + 7]);
    assert_eq!(c.v_registers[0xF], 0);
}

#[test]
fn decode_classifies_the_opcode_groups() {
    assert_eq!(decode(0x0000), Instruction::Nop);
    assert_eq!(decode(0x00E0), Instruction::ClearScreen);
    assert_eq!(decode(0x00EE), Instruction::Return);
    assert_eq!(decode(0x0123), Instruction::Sys { nnn: 0x123 });
    assert_eq!(decode(0x1ABC), Instruction::Jump { nnn: 0xABC });
    assert_eq!(decode(0x2ABC), Instruction::Call { nnn: 0xABC });
    assert_eq!(decode(0x31FE), Instruction::SkipEqImm { x: 1, kk: 0xFE });
    assert_eq!(decode(0x42AB), Instruction::SkipNeImm { x: 2, kk: 0xAB });
    assert_eq!(decode(0x5340), Instruction::SkipEqReg { x: 3, y: 4 });
    assert_eq!(decode(0x5341), Instruction::Unknown);
    assert_eq!(decode(0x6512), Instruction::LoadImm { x: 5, kk: 0x12 });
    assert_eq!(decode(0x7603), Instruction::AddImm { x: 6, kk: 0x03 });
    assert_eq!(decode(0x8120), Instruction::MoveReg { x: 1, y: 2 });
    assert_eq!(decode(0x8121), Instruction::OrReg { x: 1, y: 2 });
    assert_eq!(decode(0x8122), Instruction::AndReg { x: 1, y: 2 });
    assert_eq!(decode(0x8123), Instruction::XorReg { x: 1, y: 2 });
    assert_eq!(decode(0x8124), Instruction::AddReg { x: 1, y: 2 });
    assert_eq!(decode(0x8125), Instruction::SubReg { x: 1, y: 2 });
    assert_eq!(decode(0x8126), Instruction::ShrReg { x: 1 });
    assert_eq!(decode(0x8127), Instruction::SubnReg { x: 1, y: 2 });
    assert_eq!(decode(0x812E), Instruction::ShlReg { x: 1 });
    assert_eq!(decode(0x812A), Instruction::Unknown);
    assert_eq!(decode(0x9120), Instruction::SkipNeReg { x: 1, y: 2 });
    assert_eq!(decode(0xA123), Instruction::LoadI { nnn: 0x123 });
    assert_eq!(decode(0xB123), Instruction::JumpV0 { nnn: 0x123 });
    assert_eq!(decode(0xC177), Instruction::Random { x: 1, kk: 0x77 });
    assert_eq!(decode(0xD125), Instruction::Draw { x: 1, y: 2, n: 5 });
    assert_eq!(decode(0xE19E), Instruction::SkipKeyPressed { x: 1 });
    assert_eq!(decode(0xE1A1), Instruction::SkipKeyNotPressed { x: 1 });
    assert_eq!(decode(0xE1A2), Instruction::Unknown);
    assert_eq!(decode(0xF107), Instruction::LoadDelay { x: 1 });
    assert_eq!(decode(0xF10A), Instruction::WaitKey { x: 1 });
    assert_eq!(decode(0xF115), Instruction::StoreDelay { x: 1 });
    assert_eq!(decode(0xF118), Instruction::StoreSound { x: 1 });
    assert_eq!(decode(0xF11E), Instruction::AddI { x: 1 });
    assert_eq!(decode(0xF129), Instruction::LoadFont { x: 1 });
    assert_eq!(decode(0xF133), Instruction::StoreBcd { x: 1 });
    assert_eq!(decode(0xF155), Instruction::StoreRegs { x: 1 });
    assert_eq!(decode(0xF165), Instruction::LoadRegs { x: 1 });
    assert_eq!(decode(0xF166), Instruction::Unknown);
}

#[test]
fn initialize_buffer_is_all_black() {
    let buffer = initialize_buffer();
    assert_eq!(buffer.len(), 64 * 10 * 32 * 10);
    assert!(buffer.iter().all(|&c| c == 0));
}

#[test]
fn redraw_paints_scaled_blocks() {
    let mut c = Chip8::new();
    draw_one_row(&mut c, 0x80, 0, 0);
    let mut buffer = initialize_buffer();
    draw_screen_if_needed(&mut buffer, &c);
    // The set pixel at (0,0) paints a white 10x10 block.
    for dy in 0..10 {
        for dx in 0..10 {
            assert_eq!(buffer[dy * 640 + dx], 0xFFFFFF);
        }
    }
    // Its neighbor block stays black.
    assert_eq!(buffer[10], 0x000000);
}

#[test]
fn clean_framebuffer_leaves_the_buffer_untouched() {
    let mut c = Chip8::new();
    draw_one_row(&mut c, 0x80, 0, 0);
    c.needs_redraw = false;
    let mut buffer = initialize_buffer();
    draw_screen_if_needed(&mut buffer, &c);
    assert!(buffer.iter().all(|&cell| cell == 0));
}
