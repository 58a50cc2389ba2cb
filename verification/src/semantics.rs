//! The opcode semantics table, stated mathematically.
//!
//! Each instruction gets a relation between the machine view before and
//! after its execution; `exec_rel` dispatches those relations over the
//! decoded opcode, and `tick_rel` composes the fetch step with it.  The
//! handlers in `crate::chip8` carry these relations as their contracts.
use vstd::prelude::*;

use crate::chip8::{Chip8Error, MachineView};
use crate::chip8_util::{bcd_hundreds, bcd_ones, bcd_tens};
use crate::constants::{
    CHIP8_RAM_MEMORY_SIZE, CHIP8_REGISTER_COUNT, CHIP8_STACK_MEMORY_SIZE, FONT_GLYPH_BYTES,
    FONT_START_ADDRESS, KEY_COUNT, SCREEN_HEIGHT, SCREEN_WIDTH,
};
use crate::instruction::{decode_spec, Instruction};

verus! {

/// The step succeeded.
pub open spec fn step_ok(r: Result<(), Chip8Error>) -> bool {
    r == Ok::<(), Chip8Error>(())
}

/// The step failed with `e`.
pub open spec fn step_err(r: Result<(), Chip8Error>, e: Chip8Error) -> bool {
    r == Err::<(), Chip8Error>(e)
}

/// 8-bit addition reduced modulo 256.
pub open spec fn wrap_add_u8(p: u8, q: u8) -> u8 {
    if p + q > 255 {
        (p + q - 256) as u8
    } else {
        (p + q) as u8
    }
}

/// 8-bit subtraction reduced modulo 256.
pub open spec fn wrap_sub_u8(p: u8, q: u8) -> u8 {
    if p - q < 0 {
        (p - q + 256) as u8
    } else {
        (p - q) as u8
    }
}

/// 16-bit addition reduced modulo 2^16.
pub open spec fn wrap_add_u16(p: u16, q: u16) -> u16 {
    if p + q > 0xffff {
        (p + q - 0x10000) as u16
    } else {
        (p + q) as u16
    }
}

/// A timer tick: down by one, clamped at zero.
pub open spec fn timer_decremented(t: u8) -> u8 {
    if t > 0 {
        (t - 1) as u8
    } else {
        0
    }
}

/// Memory agrees.
pub open spec fn same_mem(a: MachineView, b: MachineView) -> bool {
    b.ram == a.ram
}

/// Program counter and stack agree.
pub open spec fn same_ctrl(a: MachineView, b: MachineView) -> bool {
    &&& b.pc == a.pc
    &&& b.stack == a.stack
}

/// V registers and the I register agree.
pub open spec fn same_regs(a: MachineView, b: MachineView) -> bool {
    &&& b.v_registers == a.v_registers
    &&& b.i_register == a.i_register
}

/// Framebuffer and dirty flag agree.
pub open spec fn same_display(a: MachineView, b: MachineView) -> bool {
    &&& b.screen == a.screen
    &&& b.needs_redraw == a.needs_redraw
}

/// Both timers agree.
pub open spec fn same_timers(a: MachineView, b: MachineView) -> bool {
    &&& b.delay_timer == a.delay_timer
    &&& b.sound_timer == a.sound_timer
}

/// Keyboard snapshot and key-wait state agree.
pub open spec fn same_input(a: MachineView, b: MachineView) -> bool {
    &&& b.keyboard == a.keyboard
    &&& b.awaiting_key == a.awaiting_key
}

/// Trace flag and instruction count agree.
pub open spec fn same_debug(a: MachineView, b: MachineView) -> bool {
    &&& b.debug_mode == a.debug_mode
    &&& b.instructions_executed == a.instructions_executed
}

/// Nothing observable changed.
pub open spec fn same_state(a: MachineView, b: MachineView) -> bool {
    &&& same_mem(a, b)
    &&& same_ctrl(a, b)
    &&& same_regs(a, b)
    &&& same_display(a, b)
    &&& same_timers(a, b)
    &&& same_input(a, b)
    &&& same_debug(a, b)
}

/// Only the V registers changed, to exactly `v`.
pub open spec fn only_v_regs(a: MachineView, b: MachineView, v: Seq<u8>) -> bool {
    &&& b.v_registers == v
    &&& b.i_register == a.i_register
    &&& same_mem(a, b)
    &&& same_ctrl(a, b)
    &&& same_display(a, b)
    &&& same_timers(a, b)
    &&& same_input(a, b)
    &&& same_debug(a, b)
}

/// Only the program counter changed, to exactly `pc`.
pub open spec fn only_pc(a: MachineView, b: MachineView, pc: int) -> bool {
    &&& b.pc == pc
    &&& b.stack == a.stack
    &&& same_mem(a, b)
    &&& same_regs(a, b)
    &&& same_display(a, b)
    &&& same_timers(a, b)
    &&& same_input(a, b)
    &&& same_debug(a, b)
}

/// Only the I register changed, to exactly `i`.
pub open spec fn only_i(a: MachineView, b: MachineView, i: int) -> bool {
    &&& b.i_register == i
    &&& b.v_registers == a.v_registers
    &&& same_mem(a, b)
    &&& same_ctrl(a, b)
    &&& same_display(a, b)
    &&& same_timers(a, b)
    &&& same_input(a, b)
    &&& same_debug(a, b)
}

/// 00E0: every pixel unset, the display marked dirty.
pub open spec fn cls_rel(a: MachineView, b: MachineView) -> bool {
    &&& b.screen == Seq::new((SCREEN_WIDTH * SCREEN_HEIGHT) as nat, |i: int| false)
    &&& b.needs_redraw
    &&& same_mem(a, b)
    &&& same_ctrl(a, b)
    &&& same_regs(a, b)
    &&& same_timers(a, b)
    &&& same_input(a, b)
    &&& same_debug(a, b)
}

/// 00EE: pop the stack into the program counter; underflow on an empty
/// stack leaves everything unchanged.
pub open spec fn ret_rel(a: MachineView, b: MachineView, r: Result<(), Chip8Error>) -> bool {
    if a.stack.len() == 0 {
        &&& step_err(r, Chip8Error::StackUnderflow)
        &&& same_state(a, b)
    } else {
        &&& step_ok(r)
        &&& b.pc == a.stack.last()
        &&& b.stack == a.stack.drop_last()
        &&& same_mem(a, b)
        &&& same_regs(a, b)
        &&& same_display(a, b)
        &&& same_timers(a, b)
        &&& same_input(a, b)
        &&& same_debug(a, b)
    }
}

/// 2nnn: push the post-fetch program counter, jump to `nnn`; overflow on
/// a full stack leaves everything unchanged.
pub open spec fn call_rel(a: MachineView, b: MachineView, nnn: u16, r: Result<
    (),
    Chip8Error,
>) -> bool {
    if a.stack.len() >= CHIP8_STACK_MEMORY_SIZE {
        &&& step_err(r, Chip8Error::StackOverflow)
        &&& same_state(a, b)
    } else {
        &&& step_ok(r)
        &&& b.pc == nnn
        &&& b.stack == a.stack.push(a.pc)
        &&& same_mem(a, b)
        &&& same_regs(a, b)
        &&& same_display(a, b)
        &&& same_timers(a, b)
        &&& same_input(a, b)
        &&& same_debug(a, b)
    }
}

/// 1nnn.
pub open spec fn jump_rel(a: MachineView, b: MachineView, nnn: u16) -> bool {
    only_pc(a, b, nnn as int)
}

/// Bnnn.
pub open spec fn jump_v0_rel(a: MachineView, b: MachineView, nnn: u16) -> bool {
    only_pc(a, b, nnn + a.v_registers[0] as int)
}

/// The program counter after a conditional skip.
pub open spec fn skipped_pc(a: MachineView, cond: bool) -> int {
    if cond {
        a.pc + 2
    } else {
        a.pc as int
    }
}

/// 3xkk.
pub open spec fn skip_eq_imm_rel(a: MachineView, b: MachineView, x: u16, kk: u8) -> bool {
    only_pc(a, b, skipped_pc(a, a.v_registers[x as int] == kk))
}

/// 4xkk.
pub open spec fn skip_ne_imm_rel(a: MachineView, b: MachineView, x: u16, kk: u8) -> bool {
    only_pc(a, b, skipped_pc(a, a.v_registers[x as int] != kk))
}

/// 5xy0.
pub open spec fn skip_eq_reg_rel(a: MachineView, b: MachineView, x: u16, y: u16) -> bool {
    only_pc(a, b, skipped_pc(a, a.v_registers[x as int] == a.v_registers[y as int]))
}

/// 9xy0.
pub open spec fn skip_ne_reg_rel(a: MachineView, b: MachineView, x: u16, y: u16) -> bool {
    only_pc(a, b, skipped_pc(a, a.v_registers[x as int] != a.v_registers[y as int]))
}

/// The key named by the low nibble of V[x] is down.
pub open spec fn vx_key_down(a: MachineView, x: u16) -> bool {
    a.keyboard[(a.v_registers[x as int] & 0x0f) as int]
}

/// Ex9E.
pub open spec fn skip_key_pressed_rel(a: MachineView, b: MachineView, x: u16) -> bool {
    only_pc(a, b, skipped_pc(a, vx_key_down(a, x)))
}

/// ExA1.
pub open spec fn skip_key_not_pressed_rel(a: MachineView, b: MachineView, x: u16) -> bool {
    only_pc(a, b, skipped_pc(a, !vx_key_down(a, x)))
}

/// 6xkk.
pub open spec fn load_imm_rel(a: MachineView, b: MachineView, x: u16, kk: u8) -> bool {
    only_v_regs(a, b, a.v_registers.update(x as int, kk))
}

/// 7xkk: wrapping add, flags untouched.
pub open spec fn add_imm_rel(a: MachineView, b: MachineView, x: u16, kk: u8) -> bool {
    only_v_regs(a, b, a.v_registers.update(x as int, wrap_add_u8(a.v_registers[x as int], kk)))
}

/// 8xy0.
pub open spec fn move_reg_rel(a: MachineView, b: MachineView, x: u16, y: u16) -> bool {
    only_v_regs(a, b, a.v_registers.update(x as int, a.v_registers[y as int]))
}

/// 8xy1.
pub open spec fn or_reg_rel(a: MachineView, b: MachineView, x: u16, y: u16) -> bool {
    only_v_regs(
        a,
        b,
        a.v_registers.update(x as int, a.v_registers[x as int] | a.v_registers[y as int]),
    )
}

/// 8xy2.
pub open spec fn and_reg_rel(a: MachineView, b: MachineView, x: u16, y: u16) -> bool {
    only_v_regs(
        a,
        b,
        a.v_registers.update(x as int, a.v_registers[x as int] & a.v_registers[y as int]),
    )
}

/// 8xy3.
pub open spec fn xor_reg_rel(a: MachineView, b: MachineView, x: u16, y: u16) -> bool {
    only_v_regs(
        a,
        b,
        a.v_registers.update(x as int, a.v_registers[x as int] ^ a.v_registers[y as int]),
    )
}

/// 8xy4: the sum is written first, then VF becomes the carry, so with
/// x = F the flag wins.
pub open spec fn add_reg_rel(a: MachineView, b: MachineView, x: u16, y: u16) -> bool {
    let vx = a.v_registers[x as int];
    let vy = a.v_registers[y as int];
    let carry: u8 = if vx + vy > 255 {
        1
    } else {
        0
    };
    only_v_regs(a, b, a.v_registers.update(x as int, wrap_add_u8(vx, vy)).update(0xf, carry))
}

/// 8xy5: VF is written first from the borrow test on the old values,
/// then V[x] takes the wrapped difference.
pub open spec fn sub_reg_rel(a: MachineView, b: MachineView, x: u16, y: u16) -> bool {
    let vx = a.v_registers[x as int];
    let vy = a.v_registers[y as int];
    let no_borrow: u8 = if vx > vy {
        1
    } else {
        0
    };
    only_v_regs(a, b, a.v_registers.update(0xf, no_borrow).update(x as int, wrap_sub_u8(vx, vy)))
}

/// 8xy7: as 8xy5 with the operands exchanged.
pub open spec fn subn_reg_rel(a: MachineView, b: MachineView, x: u16, y: u16) -> bool {
    let vx = a.v_registers[x as int];
    let vy = a.v_registers[y as int];
    let no_borrow: u8 = if vy > vx {
        1
    } else {
        0
    };
    only_v_regs(a, b, a.v_registers.update(0xf, no_borrow).update(x as int, wrap_sub_u8(vy, vx)))
}

/// 8xy6: VF takes the low bit first, then V[x] is shifted, so with x = F
/// the shift reads the just-written flag.
pub open spec fn shr_reg_rel(a: MachineView, b: MachineView, x: u16) -> bool {
    let flagged = a.v_registers.update(0xf, a.v_registers[x as int] & 1);
    only_v_regs(a, b, flagged.update(x as int, flagged[x as int] >> 1u8))
}

/// 8xyE: VF takes the high bit first, then V[x] is shifted.
pub open spec fn shl_reg_rel(a: MachineView, b: MachineView, x: u16) -> bool {
    let flagged = a.v_registers.update(0xf, (a.v_registers[x as int] >> 7u8) & 1);
    only_v_regs(a, b, flagged.update(x as int, flagged[x as int] << 1u8))
}

/// Annn.
pub open spec fn load_i_rel(a: MachineView, b: MachineView, nnn: u16) -> bool {
    only_i(a, b, nnn as int)
}

/// Fx1E.
pub open spec fn add_i_rel(a: MachineView, b: MachineView, x: u16) -> bool {
    only_i(a, b, wrap_add_u16(a.i_register, a.v_registers[x as int] as u16) as int)
}

/// Fx29: I points at the resident glyph for the low nibble of V[x].
pub open spec fn load_font_rel(a: MachineView, b: MachineView, x: u16) -> bool {
    only_i(
        a,
        b,
        FONT_START_ADDRESS + FONT_GLYPH_BYTES * ((a.v_registers[x as int] & 0x0f) as int),
    )
}

/// Cxkk: the written byte carries no promise beyond the mask.
pub open spec fn random_rel(a: MachineView, b: MachineView, x: u16, kk: u8) -> bool {
    exists|byte: u8| random_apply_rel(a, b, byte, x, kk)
}

/// The deterministic tail of Cxkk once the random byte is fixed.
pub open spec fn random_apply_rel(
    a: MachineView,
    b: MachineView,
    byte: u8,
    x: u16,
    kk: u8,
) -> bool {
    only_v_regs(a, b, a.v_registers.update(x as int, byte & kk))
}

/// Fx07.
pub open spec fn load_delay_rel(a: MachineView, b: MachineView, x: u16) -> bool {
    only_v_regs(a, b, a.v_registers.update(x as int, a.delay_timer))
}

/// Fx0A: enter the key-wait state; nothing else changes.
pub open spec fn wait_key_rel(a: MachineView, b: MachineView, x: u16) -> bool {
    &&& b.awaiting_key == Some(x as u8)
    &&& b.keyboard == a.keyboard
    &&& same_mem(a, b)
    &&& same_ctrl(a, b)
    &&& same_regs(a, b)
    &&& same_display(a, b)
    &&& same_timers(a, b)
    &&& same_debug(a, b)
}

/// Fx15.
pub open spec fn store_delay_rel(a: MachineView, b: MachineView, x: u16) -> bool {
    &&& b.delay_timer == a.v_registers[x as int]
    &&& b.sound_timer == a.sound_timer
    &&& same_mem(a, b)
    &&& same_ctrl(a, b)
    &&& same_regs(a, b)
    &&& same_display(a, b)
    &&& same_input(a, b)
    &&& same_debug(a, b)
}

/// Fx18.
pub open spec fn store_sound_rel(a: MachineView, b: MachineView, x: u16) -> bool {
    &&& b.sound_timer == a.v_registers[x as int]
    &&& b.delay_timer == a.delay_timer
    &&& same_mem(a, b)
    &&& same_ctrl(a, b)
    &&& same_regs(a, b)
    &&& same_display(a, b)
    &&& same_input(a, b)
    &&& same_debug(a, b)
}

/// Fx33: the three decimal digits of V[x] land at I, I+1, I+2.
pub open spec fn store_bcd_rel(a: MachineView, b: MachineView, x: u16, r: Result<
    (),
    Chip8Error,
>) -> bool {
    if a.i_register as int + 3 > CHIP8_RAM_MEMORY_SIZE as int {
        &&& step_err(r, Chip8Error::MemoryOutOfBounds)
        &&& same_state(a, b)
    } else {
        let v = a.v_registers[x as int];
        let i = a.i_register as int;
        &&& step_ok(r)
        &&& b.ram == a.ram.update(i, bcd_hundreds(v)).update(i + 1, bcd_tens(v)).update(
            i + 2,
            bcd_ones(v),
        )
        &&& same_ctrl(a, b)
        &&& same_regs(a, b)
        &&& same_display(a, b)
        &&& same_timers(a, b)
        &&& same_input(a, b)
        &&& same_debug(a, b)
    }
}

/// Fx55: V[0]..=V[x] are copied to memory at I, then I moves past them.
pub open spec fn store_regs_rel(a: MachineView, b: MachineView, x: u16, r: Result<
    (),
    Chip8Error,
>) -> bool {
    let i = a.i_register as int;
    if i + x + 1 > CHIP8_RAM_MEMORY_SIZE as int {
        &&& step_err(r, Chip8Error::MemoryOutOfBounds)
        &&& same_state(a, b)
    } else {
        &&& step_ok(r)
        &&& b.ram.len() == CHIP8_RAM_MEMORY_SIZE
        &&& forall|j: int| 0 <= j <= x ==> b.ram[i + j] == a.v_registers[j]
        &&& forall|j: int|
            0 <= j < CHIP8_RAM_MEMORY_SIZE && !(i <= j <= i + x) ==> b.ram[j] == a.ram[j]
        &&& b.i_register == i + x + 1
        &&& b.v_registers == a.v_registers
        &&& same_ctrl(a, b)
        &&& same_display(a, b)
        &&& same_timers(a, b)
        &&& same_input(a, b)
        &&& same_debug(a, b)
    }
}

/// Fx65: V[0]..=V[x] are filled from memory at I, then I moves past it.
pub open spec fn load_regs_rel(a: MachineView, b: MachineView, x: u16, r: Result<
    (),
    Chip8Error,
>) -> bool {
    let i = a.i_register as int;
    if i + x + 1 > CHIP8_RAM_MEMORY_SIZE as int {
        &&& step_err(r, Chip8Error::MemoryOutOfBounds)
        &&& same_state(a, b)
    } else {
        &&& step_ok(r)
        &&& b.v_registers.len() == CHIP8_REGISTER_COUNT
        &&& forall|j: int| 0 <= j <= x ==> b.v_registers[j] == a.ram[i + j]
        &&& forall|j: int|
            x < j < CHIP8_REGISTER_COUNT ==> b.v_registers[j] == a.v_registers[j]
        &&& b.i_register == i + x + 1
        &&& same_mem(a, b)
        &&& same_ctrl(a, b)
        &&& same_display(a, b)
        &&& same_timers(a, b)
        &&& same_input(a, b)
        &&& same_debug(a, b)
    }
}

/// The sprite bit for `col` within a row byte, most significant bit first.
pub open spec fn sprite_row_bit(byte: u8, col: int) -> bool {
    (byte >> ((7 - col) as u8)) & 1 == 1
}

/// Row-major framebuffer index of a drawn pixel; the x coordinate wraps
/// per pixel.
pub open spec fn pixel_index(x0: int, yy: int, col: int) -> int {
    yy * (SCREEN_WIDTH as int) + ((col + x0) % (SCREEN_WIDTH as int))
}

/// The framebuffer after XOR-blitting the first `ncols` pixels of one
/// sprite row byte onto wrapped row `yy`.
pub open spec fn draw_row_pixels(
    screen: Seq<bool>,
    byte: u8,
    x0: int,
    yy: int,
    ncols: int,
) -> Seq<bool>
    decreases ncols,
{
    if ncols <= 0 {
        screen
    } else {
        let prev = draw_row_pixels(screen, byte, x0, yy, ncols - 1);
        let idx = pixel_index(x0, yy, ncols - 1);
        prev.update(idx, prev[idx] != sprite_row_bit(byte, ncols - 1))
    }
}

/// Whether blitting the first `ncols` pixels of the row erased a set
/// pixel (the collision condition: erasure, not mere overlap).
pub open spec fn draw_row_erases(
    screen: Seq<bool>,
    byte: u8,
    x0: int,
    yy: int,
    ncols: int,
) -> bool
    decreases ncols,
{
    if ncols <= 0 {
        false
    } else {
        draw_row_erases(screen, byte, x0, yy, ncols - 1) || {
            let prev = draw_row_pixels(screen, byte, x0, yy, ncols - 1);
            prev[pixel_index(x0, yy, ncols - 1)] && sprite_row_bit(byte, ncols - 1)
        }
    }
}

/// The framebuffer after drawing the first `nrows` rows of the sprite at
/// memory address `i`; the y coordinate wraps per row.
pub open spec fn draw_sprite_pixels(
    screen: Seq<bool>,
    ram: Seq<u8>,
    i: int,
    x0: int,
    y0: int,
    nrows: int,
) -> Seq<bool>
    decreases nrows,
{
    if nrows <= 0 {
        screen
    } else {
        let prev = draw_sprite_pixels(screen, ram, i, x0, y0, nrows - 1);
        draw_row_pixels(
            prev,
            ram[i + nrows - 1],
            x0,
            (nrows - 1 + y0) % (SCREEN_HEIGHT as int),
            8,
        )
    }
}

/// Whether drawing the first `nrows` rows erased any set pixel.
pub open spec fn draw_sprite_erases(
    screen: Seq<bool>,
    ram: Seq<u8>,
    i: int,
    x0: int,
    y0: int,
    nrows: int,
) -> bool
    decreases nrows,
{
    if nrows <= 0 {
        false
    } else {
        draw_sprite_erases(screen, ram, i, x0, y0, nrows - 1) || {
            let prev = draw_sprite_pixels(screen, ram, i, x0, y0, nrows - 1);
            draw_row_erases(
                prev,
                ram[i + nrows - 1],
                x0,
                (nrows - 1 + y0) % (SCREEN_HEIGHT as int),
                8,
            )
        }
    }
}

/// Dxyn: XOR-blit with per-pixel toroidal wrap; VF reports erasure.
/// Reading past the end of memory is the fatal memory-bounds error.
pub open spec fn draw_rel(a: MachineView, b: MachineView, x: u16, y: u16, n: u16, r: Result<
    (),
    Chip8Error,
>) -> bool {
    if a.i_register as int + n as int > CHIP8_RAM_MEMORY_SIZE as int {
        &&& step_err(r, Chip8Error::MemoryOutOfBounds)
        &&& same_state(a, b)
    } else {
        let x0 = a.v_registers[x as int] as int;
        let y0 = a.v_registers[y as int] as int;
        let i = a.i_register as int;
        let erased = draw_sprite_erases(a.screen, a.ram, i, x0, y0, n as int);
        &&& step_ok(r)
        &&& b.screen == draw_sprite_pixels(a.screen, a.ram, i, x0, y0, n as int)
        &&& b.needs_redraw
        &&& b.v_registers == a.v_registers.update(0xf, if erased { 1u8 } else { 0u8 })
        &&& b.i_register == a.i_register
        &&& same_mem(a, b)
        &&& same_ctrl(a, b)
        &&& same_timers(a, b)
        &&& same_input(a, b)
        &&& same_debug(a, b)
    }
}

/// What one executed instruction does to the machine, for every opcode:
/// the wire contract of the dispatch step.
pub open spec fn exec_rel(a: MachineView, b: MachineView, op: u16, r: Result<
    (),
    Chip8Error,
>) -> bool {
    match decode_spec(op) {
        Instruction::Nop => step_ok(r) && same_state(a, b),
        Instruction::ClearScreen => step_ok(r) && cls_rel(a, b),
        Instruction::Return => ret_rel(a, b, r),
        Instruction::Sys { .. } => step_ok(r) && same_state(a, b),
        Instruction::Jump { nnn } => step_ok(r) && jump_rel(a, b, nnn),
        Instruction::Call { nnn } => call_rel(a, b, nnn, r),
        Instruction::SkipEqImm { x, kk } => step_ok(r) && skip_eq_imm_rel(a, b, x, kk),
        Instruction::SkipNeImm { x, kk } => step_ok(r) && skip_ne_imm_rel(a, b, x, kk),
        Instruction::SkipEqReg { x, y } => step_ok(r) && skip_eq_reg_rel(a, b, x, y),
        Instruction::LoadImm { x, kk } => step_ok(r) && load_imm_rel(a, b, x, kk),
        Instruction::AddImm { x, kk } => step_ok(r) && add_imm_rel(a, b, x, kk),
        Instruction::MoveReg { x, y } => step_ok(r) && move_reg_rel(a, b, x, y),
        Instruction::OrReg { x, y } => step_ok(r) && or_reg_rel(a, b, x, y),
        Instruction::AndReg { x, y } => step_ok(r) && and_reg_rel(a, b, x, y),
        Instruction::XorReg { x, y } => step_ok(r) && xor_reg_rel(a, b, x, y),
        Instruction::AddReg { x, y } => step_ok(r) && add_reg_rel(a, b, x, y),
        Instruction::SubReg { x, y } => step_ok(r) && sub_reg_rel(a, b, x, y),
        Instruction::ShrReg { x } => step_ok(r) && shr_reg_rel(a, b, x),
        Instruction::SubnReg { x, y } => step_ok(r) && subn_reg_rel(a, b, x, y),
        Instruction::ShlReg { x } => step_ok(r) && shl_reg_rel(a, b, x),
        Instruction::SkipNeReg { x, y } => step_ok(r) && skip_ne_reg_rel(a, b, x, y),
        Instruction::LoadI { nnn } => step_ok(r) && load_i_rel(a, b, nnn),
        Instruction::JumpV0 { nnn } => step_ok(r) && jump_v0_rel(a, b, nnn),
        Instruction::Random { x, kk } => step_ok(r) && random_rel(a, b, x, kk),
        Instruction::Draw { x, y, n } => draw_rel(a, b, x, y, n, r),
        Instruction::SkipKeyPressed { x } => step_ok(r) && skip_key_pressed_rel(a, b, x),
        Instruction::SkipKeyNotPressed { x } => step_ok(r) && skip_key_not_pressed_rel(a, b, x),
        Instruction::LoadDelay { x } => step_ok(r) && load_delay_rel(a, b, x),
        Instruction::WaitKey { x } => step_ok(r) && wait_key_rel(a, b, x),
        Instruction::StoreDelay { x } => step_ok(r) && store_delay_rel(a, b, x),
        Instruction::StoreSound { x } => step_ok(r) && store_sound_rel(a, b, x),
        Instruction::AddI { x } => step_ok(r) && add_i_rel(a, b, x),
        Instruction::LoadFont { x } => step_ok(r) && load_font_rel(a, b, x),
        Instruction::StoreBcd { x } => store_bcd_rel(a, b, x, r),
        Instruction::StoreRegs { x } => store_regs_rel(a, b, x, r),
        Instruction::LoadRegs { x } => load_regs_rel(a, b, x, r),
        Instruction::Unknown => step_ok(r) && same_state(a, b),
    }
}

/// The lowest-numbered key that is down, if any.
pub open spec fn first_pressed_from(keys: Seq<bool>, k: int) -> Option<u8>
    decreases KEY_COUNT as int - k,
{
    if k < 0 || k >= KEY_COUNT as int {
        None
    } else if keys[k] {
        Some(k as u8)
    } else {
        first_pressed_from(keys, k + 1)
    }
}

/// The lowest-numbered key that is down, if any.
pub open spec fn first_pressed(keys: Seq<bool>) -> Option<u8> {
    first_pressed_from(keys, 0)
}

/// One driver step taken while the key-wait state is pending: the dirty
/// flag is consumed, and the wait either resolves into V[x] or persists.
pub open spec fn wait_step_rel(a: MachineView, b: MachineView, x: u8) -> bool {
    &&& match first_pressed(a.keyboard) {
        Some(k) => {
            &&& b.v_registers == a.v_registers.update(x as int, k)
            &&& b.awaiting_key is None
        },
        None => {
            &&& b.v_registers == a.v_registers
            &&& b.awaiting_key == a.awaiting_key
        },
    }
    &&& b.keyboard == a.keyboard
    &&& b.i_register == a.i_register
    &&& b.screen == a.screen
    &&& !b.needs_redraw
    &&& same_mem(a, b)
    &&& same_ctrl(a, b)
    &&& same_timers(a, b)
    &&& same_debug(a, b)
}

/// The program counter points at a whole instruction word in memory.
pub open spec fn can_fetch(a: MachineView) -> bool {
    a.pc as int + 1 < CHIP8_RAM_MEMORY_SIZE as int
}

/// The big-endian instruction word at the program counter.
pub open spec fn fetched_word(a: MachineView) -> u16 {
    (a.ram[a.pc as int] as int * 256 + a.ram[a.pc as int + 1] as int) as u16
}

/// The fetch step: either the word is read and the program counter moves
/// past it, or the runaway-program error is reported.
pub open spec fn fetch_rel(a: MachineView, b: MachineView, r: Result<u16, Chip8Error>) -> bool {
    if can_fetch(a) {
        &&& r == Ok::<u16, Chip8Error>(fetched_word(a))
        &&& b.pc == a.pc + 2
        &&& b.stack == a.stack
        &&& same_mem(a, b)
        &&& same_regs(a, b)
        &&& same_display(a, b)
        &&& same_timers(a, b)
        &&& same_input(a, b)
        &&& same_debug(a, b)
    } else {
        &&& r == Err::<u16, Chip8Error>(Chip8Error::FetchOutOfBounds)
        &&& same_state(a, b)
    }
}

/// The instruction count after the fetch phase: it advances only while
/// the trace is on.
pub open spec fn traced_count(a: MachineView) -> usize {
    if a.debug_mode {
        if a.instructions_executed == usize::MAX {
            0
        } else {
            (a.instructions_executed + 1) as usize
        }
    } else {
        a.instructions_executed
    }
}

/// The machine between fetch and execute: dirty flag consumed, program
/// counter past the word, trace count advanced.
pub open spec fn mid_state(a: MachineView) -> MachineView {
    MachineView {
        pc: (a.pc + 2) as u16,
        needs_redraw: false,
        instructions_executed: traced_count(a),
        ..a
    }
}

/// One whole driver step: resolve a pending key-wait, or fetch, decode
/// and execute one instruction.
pub open spec fn tick_rel(a: MachineView, b: MachineView, r: Result<(), Chip8Error>) -> bool {
    match a.awaiting_key {
        Some(x) => step_ok(r) && wait_step_rel(a, b, x),
        None => if can_fetch(a) {
            exec_rel(mid_state(a), b, fetched_word(a), r)
        } else {
            &&& step_err(r, Chip8Error::FetchOutOfBounds)
            &&& same_mem(a, b)
            &&& same_ctrl(a, b)
            &&& same_regs(a, b)
            &&& b.screen == a.screen
            &&& !b.needs_redraw
            &&& same_timers(a, b)
            &&& same_input(a, b)
            &&& same_debug(a, b)
        },
    }
}

/// Both timers fall by at most one and never below zero; nothing else
/// changes.
pub open spec fn timers_rel(a: MachineView, b: MachineView) -> bool {
    &&& b.delay_timer == timer_decremented(a.delay_timer)
    &&& b.sound_timer == timer_decremented(a.sound_timer)
    &&& same_mem(a, b)
    &&& same_ctrl(a, b)
    &&& same_regs(a, b)
    &&& same_display(a, b)
    &&& same_input(a, b)
    &&& same_debug(a, b)
}

} // verus!
