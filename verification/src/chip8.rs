//! The interpreter state container and the instruction handlers.
//!
//! `Chip8` owns memory, registers, stack, timers, framebuffer and the
//! keyboard snapshot.  Its mathematical model is `MachineView`; every
//! handler carries a contract that pins down the whole view after the
//! call in terms of the view before it, through the relations of
//! `crate::semantics`.
use vstd::prelude::*;

use crate::chip8_util::Chip8Util;
use crate::constants::{
    CHIP8_RAM_MEMORY_SIZE, CHIP8_REGISTER_COUNT, CHIP8_STACK_MEMORY_SIZE, FONT_GLYPH_BYTES,
    FONT_START_ADDRESS, FONT_TABLE_BYTES, KEY_COUNT, SCREEN_HEIGHT, SCREEN_WIDTH,
    START_RAM_ADDRESS,
};
use crate::instruction::{decode, nib1, nib2, nib3, nib4, opcode_field_facts, Instruction};
use crate::semantics::{
    add_i_rel, add_imm_rel, add_reg_rel, and_reg_rel, call_rel, cls_rel, draw_rel,
    draw_row_erases, draw_row_pixels, draw_sprite_erases, draw_sprite_pixels, exec_rel,
    fetch_rel, first_pressed, first_pressed_from, jump_rel, jump_v0_rel, load_delay_rel,
    load_font_rel, load_i_rel, load_imm_rel, load_regs_rel, mid_state, move_reg_rel, or_reg_rel,
    random_apply_rel, random_rel, ret_rel, same_ctrl, same_debug, same_display, same_input,
    same_mem, same_regs, same_state, same_timers, shl_reg_rel, shr_reg_rel, skip_eq_imm_rel,
    skip_eq_reg_rel, skip_key_not_pressed_rel, skip_key_pressed_rel, skip_ne_imm_rel,
    skip_ne_reg_rel, store_bcd_rel, store_delay_rel, store_regs_rel, store_sound_rel,
    sub_reg_rel, subn_reg_rel, tick_rel, timers_rel, wait_key_rel, xor_reg_rel,
};

verus! {

/// The fatal conditions that a host must be able to tell apart.
///
/// Recoverable conditions (an unknown opcode) are absorbed as no-ops and
/// never surface here.
#[derive(Clone, Copy, Debug, PartialEq, Eq, Structural)]
pub enum Chip8Error {
    /// A CALL was executed with 16 frames already on the stack.
    StackOverflow,
    /// A RETURN was executed with an empty stack.
    StackUnderflow,
    /// The program counter points outside memory: a runaway program.
    FetchOutOfBounds,
    /// An instruction asked to read or write bytes beyond the end of memory.
    MemoryOutOfBounds,
}

/// The mathematical model of the whole machine: the contracts speak of
/// this view, never of the concrete vectors.
#[verifier::ext_equal]
pub ghost struct MachineView {
    pub ram: Seq<u8>,
    pub pc: u16,
    pub i_register: u16,
    pub stack: Seq<u16>,
    pub delay_timer: u8,
    pub sound_timer: u8,
    pub v_registers: Seq<u8>,
    pub screen: Seq<bool>,
    pub needs_redraw: bool,
    pub keyboard: Seq<bool>,
    pub awaiting_key: Option<u8>,
    pub debug_mode: bool,
    pub instructions_executed: usize,
}

pub struct Chip8 {
    /// 4096 bytes of memory; the program region starts at 0x200.
    pub ram: Vec<u8>,
    /// Program counter.
    pub pc: u16,
    /// Address register; only the lowest 12 bits are meaningful.
    pub i_register: u16,
    /// Subroutine return addresses, at most 16 deep.
    pub stack: Vec<u16>,
    /// Delay timer, decremented towards 0 by `update_timers`.
    pub delay_timer: u8,
    /// Sound timer, decremented towards 0 by `update_timers`.
    pub sound_timer: u8,
    /// The 16 general-purpose V registers; VF doubles as the flags register.
    pub v_registers: Vec<u8>,
    /// 64x32 framebuffer, row-major: index = y * 64 + x.
    pub screen: Vec<bool>,
    /// Set when the framebuffer changed; consumed once per redraw.
    pub needs_redraw: bool,
    /// Snapshot of the 16-key hex keypad, written by the host before a step.
    pub keyboard: Vec<bool>,
    /// `Some(x)` while a key-wait instruction blocks execution: the next
    /// observed key press is stored in V[x] before stepping resumes.
    pub awaiting_key: Option<u8>,
    /// Whether the host asked for an instruction trace.
    pub debug_mode: bool,
    /// Running count of executed instructions while tracing.
    pub instructions_executed: usize,
}

impl View for Chip8 {
    type V = MachineView;

    open spec fn view(&self) -> MachineView {
        MachineView {
            ram: self.ram@,
            pc: self.pc,
            i_register: self.i_register,
            stack: self.stack@,
            delay_timer: self.delay_timer,
            sound_timer: self.sound_timer,
            v_registers: self.v_registers@,
            screen: self.screen@,
            needs_redraw: self.needs_redraw,
            keyboard: self.keyboard@,
            awaiting_key: self.awaiting_key,
            debug_mode: self.debug_mode,
            instructions_executed: self.instructions_executed,
        }
    }
}

/// A framebuffer with every pixel unset.
pub open spec fn blank_screen() -> Seq<bool> {
    Seq::new((SCREEN_WIDTH * SCREEN_HEIGHT) as nat, |i: int| false)
}

/// The built-in sprites for the hexadecimal digits 0..=F: 16 glyphs of
/// 5 rows each, one byte per row, most significant bit leftmost.
pub open spec fn font_data() -> Seq<u8> {
    Seq::<u8>::empty()
        .push(0xF0).push(0x90).push(0x90).push(0x90).push(0xF0)
        .push(0x20).push(0x60).push(0x20).push(0x20).push(0x70)
        .push(0xF0).push(0x10).push(0xF0).push(0x80).push(0xF0)
        .push(0xF0).push(0x10).push(0xF0).push(0x10).push(0xF0)
        .push(0x90).push(0x90).push(0xF0).push(0x10).push(0x10)
        .push(0xF0).push(0x80).push(0xF0).push(0x10).push(0xF0)
        .push(0xF0).push(0x80).push(0xF0).push(0x90).push(0xF0)
        .push(0xF0).push(0x10).push(0x20).push(0x40).push(0x40)
        .push(0xF0).push(0x90).push(0xF0).push(0x90).push(0xF0)
        .push(0xF0).push(0x90).push(0xF0).push(0x10).push(0xF0)
        .push(0xF0).push(0x90).push(0xF0).push(0x90).push(0x90)
        .push(0xE0).push(0x90).push(0xE0).push(0x90).push(0xE0)
        .push(0xF0).push(0x80).push(0x80).push(0x80).push(0xF0)
        .push(0xE0).push(0x90).push(0x90).push(0x90).push(0xE0)
        .push(0xF0).push(0x80).push(0xF0).push(0x80).push(0xF0)
        .push(0xF0).push(0x80).push(0xF0).push(0x80).push(0x80)
}

/// Memory contents right after boot: zero everywhere except the resident
/// font table at its conventional low address.
pub open spec fn boot_ram() -> Seq<u8> {
    Seq::new(
        CHIP8_RAM_MEMORY_SIZE as nat,
        |j: int|
            if FONT_START_ADDRESS as int <= j < FONT_START_ADDRESS as int + FONT_TABLE_BYTES as int {
                font_data()[j - FONT_START_ADDRESS as int]
            } else {
                0u8
            },
    )
}

impl MachineView {
    /// Structural well-formedness: the fixed-size parts of the model have
    /// their fixed sizes, the stack respects its bound, and a pending
    /// key-wait names a real register.
    pub open spec fn wf(&self) -> bool {
        &&& self.ram.len() == CHIP8_RAM_MEMORY_SIZE
        &&& self.v_registers.len() == CHIP8_REGISTER_COUNT
        &&& self.screen.len() == SCREEN_WIDTH * SCREEN_HEIGHT
        &&& self.keyboard.len() == KEY_COUNT
        &&& self.stack.len() <= CHIP8_STACK_MEMORY_SIZE
        &&& match self.awaiting_key {
            Some(x) => x < CHIP8_REGISTER_COUNT as u8,
            None => true,
        }
    }

    /// The state produced by `new`: everything zeroed, the program counter
    /// at the start of the program region, the font table resident.
    pub open spec fn is_boot(&self) -> bool {
        &&& self.ram == boot_ram()
        &&& self.pc == START_RAM_ADDRESS
        &&& self.i_register == 0
        &&& self.stack == Seq::<u16>::empty()
        &&& self.delay_timer == 0
        &&& self.sound_timer == 0
        &&& self.v_registers == Seq::new(CHIP8_REGISTER_COUNT as nat, |i: int| 0u8)
        &&& self.screen == blank_screen()
        &&& !self.needs_redraw
        &&& self.keyboard == Seq::new(KEY_COUNT as nat, |i: int| false)
        &&& self.awaiting_key is None
        &&& !self.debug_mode
        &&& self.instructions_executed == 0
    }

    /// Boot state with `rom` copied byte for byte into memory starting at
    /// the program region.
    pub open spec fn is_loaded(&self, rom: Seq<u8>) -> bool {
        &&& self.ram.len() == CHIP8_RAM_MEMORY_SIZE
        &&& forall|j: int| 0 <= j < rom.len() ==> self.ram[START_RAM_ADDRESS as int + j] == rom[j]
        &&& forall|j: int|
            0 <= j < CHIP8_RAM_MEMORY_SIZE
                && !(START_RAM_ADDRESS as int <= j < START_RAM_ADDRESS as int + rom.len())
                ==> self.ram[j] == boot_ram()[j]
        &&& self.pc == START_RAM_ADDRESS
        &&& self.i_register == 0
        &&& self.stack == Seq::<u16>::empty()
        &&& self.delay_timer == 0
        &&& self.sound_timer == 0
        &&& self.v_registers == Seq::new(CHIP8_REGISTER_COUNT as nat, |i: int| 0u8)
        &&& self.screen == blank_screen()
        &&& !self.needs_redraw
        &&& self.keyboard == Seq::new(KEY_COUNT as nat, |i: int| false)
        &&& self.awaiting_key is None
        &&& !self.debug_mode
        &&& self.instructions_executed == 0
    }
}

impl Chip8 {
    /// Structural well-formedness of the state container.
    pub open spec fn wf(&self) -> bool {
        self@.wf()
    }

    pub fn new() -> (c: Chip8)
        ensures
            c.wf(),
            c@.is_boot(),
    {
        let mut ram = filled_bytes(CHIP8_RAM_MEMORY_SIZE, 0);
        let font = font_table();
        let mut k: usize = 0;
        while k < FONT_TABLE_BYTES
            invariant
                k <= FONT_TABLE_BYTES,
                ram@.len() == CHIP8_RAM_MEMORY_SIZE,
                font@.len() == FONT_TABLE_BYTES,
                forall|j: int|
                    0 <= j < k ==> ram@[FONT_START_ADDRESS as int + j] == font@[j],
                forall|j: int|
                    0 <= j < CHIP8_RAM_MEMORY_SIZE
                        && !(FONT_START_ADDRESS as int <= j < FONT_START_ADDRESS as int + k)
                        ==> ram@[j] == 0u8,
            decreases FONT_TABLE_BYTES - k,
        {
            let b = font[k];
            ram[FONT_START_ADDRESS as usize + k] = b;
            k += 1;
        }
        proof {
            assert(ram@ =~= boot_ram());
        }
        Chip8 {
            ram,
            pc: START_RAM_ADDRESS,
            i_register: 0,
            stack: Vec::new(),
            delay_timer: 0,
            sound_timer: 0,
            v_registers: filled_bytes(CHIP8_REGISTER_COUNT, 0),
            screen: filled_bools(SCREEN_WIDTH * SCREEN_HEIGHT, false),
            needs_redraw: false,
            keyboard: filled_bools(KEY_COUNT, false),
            awaiting_key: None,
            debug_mode: false,
            instructions_executed: 0,
        }
    }

    pub fn start(rom_binary: Vec<u8>) -> (c: Chip8)
        requires
            START_RAM_ADDRESS as int + rom_binary@.len() <= CHIP8_RAM_MEMORY_SIZE as int,
        ensures
            c.wf(),
            c@.is_loaded(rom_binary@),
    {
        let mut chip8 = Self::new();
        chip8.load_rom(rom_binary);
        chip8
    }

    /// Copy a raw ROM image into memory at the program region; nothing else
    /// of the state changes.
    pub fn load_rom(&mut self, rom_binary: Vec<u8>)
        requires
            old(self).wf(),
            START_RAM_ADDRESS as int + rom_binary@.len() <= CHIP8_RAM_MEMORY_SIZE as int,
        ensures
            final(self).wf(),
            final(self)@.ram.len() == CHIP8_RAM_MEMORY_SIZE,
            forall|j: int|
                0 <= j < rom_binary@.len()
                    ==> final(self)@.ram[START_RAM_ADDRESS as int + j] == rom_binary@[j],
            forall|j: int|
                0 <= j < CHIP8_RAM_MEMORY_SIZE
                    && !(START_RAM_ADDRESS as int <= j < START_RAM_ADDRESS as int
                        + rom_binary@.len()) ==> final(self)@.ram[j] == old(self)@.ram[j],
            same_ctrl(old(self)@, final(self)@),
            same_regs(old(self)@, final(self)@),
            same_display(old(self)@, final(self)@),
            same_timers(old(self)@, final(self)@),
            same_input(old(self)@, final(self)@),
            same_debug(old(self)@, final(self)@),
    {
        let start_ram_address = START_RAM_ADDRESS as usize;
        let mut k: usize = 0;
        while k < rom_binary.len()
            invariant
                k <= rom_binary@.len(),
                start_ram_address == START_RAM_ADDRESS as int,
                start_ram_address + rom_binary@.len() <= CHIP8_RAM_MEMORY_SIZE as int,
                self.ram@.len() == CHIP8_RAM_MEMORY_SIZE,
                forall|j: int|
                    0 <= j < k ==> self.ram@[START_RAM_ADDRESS as int + j] == rom_binary@[j],
                forall|j: int|
                    0 <= j < CHIP8_RAM_MEMORY_SIZE
                        && !(START_RAM_ADDRESS as int <= j < START_RAM_ADDRESS as int + k)
                        ==> self.ram@[j] == old(self)@.ram[j],
                same_ctrl(old(self)@, self@),
                same_regs(old(self)@, self@),
                same_display(old(self)@, self@),
                same_timers(old(self)@, self@),
                same_input(old(self)@, self@),
                same_debug(old(self)@, self@),
            decreases rom_binary@.len() - k,
        {
            let b = rom_binary[k];
            self.ram[start_ram_address + k] = b;
            k += 1;
        }
    }

    /// Turn on the instruction trace and seed the running count.
    pub fn enable_debug_mode(&mut self, instructions_executed: usize)
        requires
            old(self).wf(),
        ensures
            final(self).wf(),
            final(self)@.debug_mode,
            final(self)@.instructions_executed == instructions_executed,
            same_mem(old(self)@, final(self)@),
            same_ctrl(old(self)@, final(self)@),
            same_regs(old(self)@, final(self)@),
            same_display(old(self)@, final(self)@),
            same_timers(old(self)@, final(self)@),
            same_input(old(self)@, final(self)@),
    {
        self.debug_mode = true;
        self.instructions_executed = instructions_executed;
    }

    /// Split an opcode word into its four 4-bit fields.
    pub fn extract_nibbles(op_code: u16) -> (digits: (u16, u16, u16, u16))
        ensures
            digits.0 == nib1(op_code),
            digits.1 == nib2(op_code),
            digits.2 == nib3(op_code),
            digits.3 == nib4(op_code),
            digits.0 < 16,
            digits.1 < 16,
            digits.2 < 16,
            digits.3 < 16,
    {
        Chip8Util::extract_nibbles(op_code)
    }

    /// The decimal digits of a byte in order, most significant first.
    pub fn extract_digits(n: u8) -> (digits: Vec<u8>)
        ensures
            digits@ == crate::chip8_util::decimal_digits(n as int),
            1 <= digits@.len() <= 3,
    {
        Chip8Util::extract_digits(n)
    }

    /// 00E0: clear the framebuffer and mark it dirty.
    pub fn clear_screen(&mut self)
        requires
            old(self).wf(),
        ensures
            final(self).wf(),
            cls_rel(old(self)@, final(self)@),
    {
        self.screen = filled_bools(SCREEN_WIDTH * SCREEN_HEIGHT, false);
        self.needs_redraw = true;
    }

    /// 00EE: return from a subroutine, reporting underflow on an empty
    /// stack.
    pub fn return_from_subroutine(&mut self) -> (r: Result<(), Chip8Error>)
        requires
            old(self).wf(),
        ensures
            final(self).wf(),
            ret_rel(old(self)@, final(self)@, r),
    {
        match self.stack.pop() {
            Some(return_address) => {
                self.pc = return_address;
                Ok(())
            },
            None => Err(Chip8Error::StackUnderflow),
        }
    }

    /// 0nnn: legacy machine-code call, ignored.
    pub fn sys_addr(&mut self, _op_code: u16)
        requires
            old(self).wf(),
        ensures
            final(self).wf(),
            same_state(old(self)@, final(self)@),
    {
    }

    /// 1nnn: jump.
    pub fn jump(&mut self, op_code: u16)
        requires
            old(self).wf(),
        ensures
            final(self).wf(),
            jump_rel(old(self)@, final(self)@, op_code & 0x0fff),
    {
        self.pc = op_code & 0x0fff;
    }

    /// Bnnn: jump to nnn + V[0].
    pub fn jump_v0_addr(&mut self, op_code: u16)
        requires
            old(self).wf(),
        ensures
            final(self).wf(),
            jump_v0_rel(old(self)@, final(self)@, op_code & 0x0fff),
    {
        proof {
            opcode_field_facts(op_code);
        }
        self.pc = (op_code & 0x0fff) + self.v_registers[0] as u16;
    }

    /// 2nnn: push the post-fetch program counter and jump, reporting
    /// overflow on a full stack.
    pub fn call_subroutine(&mut self, op_code: u16) -> (r: Result<(), Chip8Error>)
        requires
            old(self).wf(),
        ensures
            final(self).wf(),
            call_rel(old(self)@, final(self)@, op_code & 0x0fff, r),
    {
        if self.stack.len() >= CHIP8_STACK_MEMORY_SIZE {
            return Err(Chip8Error::StackOverflow);
        }
        self.stack.push(self.pc);
        self.pc = op_code & 0x0fff;
        Ok(())
    }

    /// 3xkk: skip the next instruction if V[x] equals the immediate put
    /// together from the two low nibbles.
    pub fn skip_if_equal(&mut self, x: u16, k1: u16, k2: u16)
        requires
            old(self).wf(),
            x < 16,
            k1 < 16,
            k2 < 16,
            old(self).pc + 2 <= u16::MAX,
        ensures
            final(self).wf(),
            skip_eq_imm_rel(old(self)@, final(self)@, x, ((k1 << 4u16) | k2) as u8),
    {
        let v_register_value = self.v_registers[x as usize];
        let kk: u8 = ((k1 << 4u16) | k2) as u8;
        if v_register_value == kk {
            self.pc = self.pc + 2;
        }
    }

    /// 4xkk: skip the next instruction if V[x] differs from the immediate.
    pub fn skip_if_vx_not_eq_kk(&mut self, x: u16, k1: u16, k2: u16)
        requires
            old(self).wf(),
            x < 16,
            k1 < 16,
            k2 < 16,
            old(self).pc + 2 <= u16::MAX,
        ensures
            final(self).wf(),
            skip_ne_imm_rel(old(self)@, final(self)@, x, ((k1 << 4u16) | k2) as u8),
    {
        let v_register_value = self.v_registers[x as usize];
        let kk: u8 = ((k1 << 4u16) | k2) as u8;
        if v_register_value != kk {
            self.pc = self.pc + 2;
        }
    }

    /// 5xy0: skip the next instruction if V[x] == V[y].
    pub fn skip_if_vx_eq_vy(&mut self, x: u16, y: u16)
        requires
            old(self).wf(),
            x < 16,
            y < 16,
            old(self).pc + 2 <= u16::MAX,
        ensures
            final(self).wf(),
            skip_eq_reg_rel(old(self)@, final(self)@, x, y),
    {
        let vx = self.v_registers[x as usize];
        let vy = self.v_registers[y as usize];
        if vx == vy {
            self.pc = self.pc + 2;
        }
    }

    /// 9xy0: skip the next instruction if V[x] != V[y].
    pub fn skip_if_vx_ne_vy(&mut self, x: u16, y: u16)
        requires
            old(self).wf(),
            x < 16,
            y < 16,
            old(self).pc + 2 <= u16::MAX,
        ensures
            final(self).wf(),
            skip_ne_reg_rel(old(self)@, final(self)@, x, y),
    {
        let vx = self.v_registers[x as usize];
        let vy = self.v_registers[y as usize];
        if vx != vy {
            self.pc = self.pc + 2;
        }
    }

    /// 6xkk: set V[x] to the immediate.
    pub fn set_v_register(&mut self, op_code: u16)
        requires
            old(self).wf(),
        ensures
            final(self).wf(),
            load_imm_rel(old(self)@, final(self)@, nib2(op_code), (op_code & 0x00ff) as u8),
    {
        proof {
            opcode_field_facts(op_code);
        }
        let v_register_index = ((op_code & 0x0f00) >> 8) as usize;
        let nn = (op_code & 0x00ff) as u8;
        self.v_registers[v_register_index] = nn;
    }

    /// 7xkk: add the immediate to V[x], wrapping modulo 256; the flags
    /// register is untouched.
    pub fn add_value_to_v_register(&mut self, op_code: u16)
        requires
            old(self).wf(),
        ensures
            final(self).wf(),
            add_imm_rel(old(self)@, final(self)@, nib2(op_code), (op_code & 0x00ff) as u8),
    {
        proof {
            opcode_field_facts(op_code);
        }
        let v_register_index = ((op_code & 0x0f00) >> 8) as usize;
        let nn = (op_code & 0x00ff) as u8;
        let current = self.v_registers[v_register_index];
        self.v_registers[v_register_index] = current.wrapping_add(nn);
    }

    /// 8xy0: V[x] = V[y].
    pub fn store_vy_in_vx(&mut self, x: u16, y: u16)
        requires
            old(self).wf(),
            x < 16,
            y < 16,
        ensures
            final(self).wf(),
            move_reg_rel(old(self)@, final(self)@, x, y),
    {
        let vy = self.v_registers[y as usize];
        self.v_registers[x as usize] = vy;
    }

    /// 8xy1: V[x] |= V[y].
    pub fn set_vx_with_vx_or_vy(&mut self, x: u16, y: u16)
        requires
            old(self).wf(),
            x < 16,
            y < 16,
        ensures
            final(self).wf(),
            or_reg_rel(old(self)@, final(self)@, x, y),
    {
        let vx = self.v_registers[x as usize];
        let vy = self.v_registers[y as usize];
        self.v_registers[x as usize] = vx | vy;
    }

    /// 8xy2: V[x] &= V[y].
    pub fn set_vx_with_vx_and_vy(&mut self, x: u16, y: u16)
        requires
            old(self).wf(),
            x < 16,
            y < 16,
        ensures
            final(self).wf(),
            and_reg_rel(old(self)@, final(self)@, x, y),
    {
        let vx = self.v_registers[x as usize];
        let vy = self.v_registers[y as usize];
        self.v_registers[x as usize] = vx & vy;
    }

    /// 8xy3: V[x] ^= V[y].
    pub fn set_vx_with_vx_xor_vy(&mut self, x: u16, y: u16)
        requires
            old(self).wf(),
            x < 16,
            y < 16,
        ensures
            final(self).wf(),
            xor_reg_rel(old(self)@, final(self)@, x, y),
    {
        let vx = self.v_registers[x as usize];
        let vy = self.v_registers[y as usize];
        self.v_registers[x as usize] = vx ^ vy;
    }

    /// 8xy4: V[x] += V[y] wrapping; VF reports the carry out of 8 bits.
    pub fn add_vx_with_vy(&mut self, x: u16, y: u16)
        requires
            old(self).wf(),
            x < 16,
            y < 16,
        ensures
            final(self).wf(),
            add_reg_rel(old(self)@, final(self)@, x, y),
    {
        let vx = self.v_registers[x as usize];
        let vy = self.v_registers[y as usize];
        let result = vx.wrapping_add(vy);
        self.v_registers[x as usize] = result;
        if (vx as u16) + (vy as u16) > 255 {
            self.v_registers[0xf] = 1;
        } else {
            self.v_registers[0xf] = 0;
        }
    }

    /// 8xy5: VF = 1 exactly when V[x] > V[y], then V[x] -= V[y] wrapping.
    pub fn subtract_vy_from_vx(&mut self, x: u16, y: u16)
        requires
            old(self).wf(),
            x < 16,
            y < 16,
        ensures
            final(self).wf(),
            sub_reg_rel(old(self)@, final(self)@, x, y),
    {
        let vx = self.v_registers[x as usize];
        let vy = self.v_registers[y as usize];
        if vx > vy {
            self.v_registers[0xf] = 1;
        } else {
            self.v_registers[0xf] = 0;
        }
        self.v_registers[x as usize] = vx.wrapping_sub(vy);
    }

    /// 8xy7: VF = 1 exactly when V[y] > V[x], then V[x] = V[y] - V[x]
    /// wrapping.
    pub fn subtract_vx_from_vy(&mut self, x: u16, y: u16)
        requires
            old(self).wf(),
            x < 16,
            y < 16,
        ensures
            final(self).wf(),
            subn_reg_rel(old(self)@, final(self)@, x, y),
    {
        let vx = self.v_registers[x as usize];
        let vy = self.v_registers[y as usize];
        if vy > vx {
            self.v_registers[0xf] = 1;
        } else {
            self.v_registers[0xf] = 0;
        }
        self.v_registers[x as usize] = vy.wrapping_sub(vx);
    }

    /// 8xy6: VF takes the low bit of V[x], then V[x] is shifted right.
    /// The shift acts on V[x] itself, not V[y]: a deliberate quirk kept
    /// for compatibility.
    pub fn shr_vx(&mut self, x: u16)
        requires
            old(self).wf(),
            x < 16,
        ensures
            final(self).wf(),
            shr_reg_rel(old(self)@, final(self)@, x),
    {
        let low_bit = self.v_registers[x as usize] & 0x01;
        self.v_registers[0xf] = low_bit;
        let current = self.v_registers[x as usize];
        self.v_registers[x as usize] = current >> 1u8;
    }

    /// 8xyE: VF takes the high bit of V[x], then V[x] is shifted left.
    /// Same V[x]-only quirk as the right shift.
    pub fn shl_vx(&mut self, x: u16)
        requires
            old(self).wf(),
            x < 16,
        ensures
            final(self).wf(),
            shl_reg_rel(old(self)@, final(self)@, x),
    {
        let high_bit = (self.v_registers[x as usize] >> 7u8) & 0x01;
        self.v_registers[0xf] = high_bit;
        let current = self.v_registers[x as usize];
        self.v_registers[x as usize] = current << 1u8;
    }

    /// Annn: I = nnn.
    pub fn set_i_register(&mut self, op_code: u16)
        requires
            old(self).wf(),
        ensures
            final(self).wf(),
            load_i_rel(old(self)@, final(self)@, op_code & 0x0fff),
    {
        self.i_register = op_code & 0x0fff;
    }

    /// Fx1E: I += V[x], wrapping on 16-bit overflow.
    pub fn add_vx_to_i(&mut self, x: u16)
        requires
            old(self).wf(),
            x < 16,
        ensures
            final(self).wf(),
            add_i_rel(old(self)@, final(self)@, x),
    {
        let vx = self.v_registers[x as usize];
        self.i_register = self.i_register.wrapping_add(vx as u16);
    }

    /// Fx29: point I at the resident glyph for the low nibble of V[x].
    pub fn ld_f_vx(&mut self, x: u16)
        requires
            old(self).wf(),
            x < 16,
        ensures
            final(self).wf(),
            load_font_rel(old(self)@, final(self)@, x),
    {
        let vx = self.v_registers[x as usize];
        let digit = (vx & 0x0f) as u16;
        proof {
            assert(vx & 0x0f < 16) by (bit_vector);
        }
        self.i_register = FONT_START_ADDRESS + FONT_GLYPH_BYTES * digit;
    }

    /// Cxkk: draw a fresh random byte, mask it with the immediate and
    /// store it in V[x].  The contract promises the masking alone: the
    /// byte itself carries no promise.
    pub fn rnd_vx_byte(&mut self, op_code: u16)
        requires
            old(self).wf(),
        ensures
            final(self).wf(),
            random_rel(old(self)@, final(self)@, nib2(op_code), (op_code & 0x00ff) as u8),
    {
        let random_byte = crate::rng::random_byte();
        self.apply_random_byte(random_byte, op_code);
    }

    /// The deterministic tail of Cxkk: store `random_byte & kk` in V[x].
    pub fn apply_random_byte(&mut self, random_byte: u8, op_code: u16)
        requires
            old(self).wf(),
        ensures
            final(self).wf(),
            random_apply_rel(
                old(self)@,
                final(self)@,
                random_byte,
                nib2(op_code),
                (op_code & 0x00ff) as u8,
            ),
    {
        proof {
            opcode_field_facts(op_code);
        }
        let v_register_index = ((op_code & 0x0f00) >> 8) as usize;
        let kk = (op_code & 0x00ff) as u8;
        self.v_registers[v_register_index] = random_byte & kk;
    }

    /// Ex9E: skip the next instruction if the key named by the low nibble
    /// of V[x] is down.
    pub fn skp_vx(&mut self, x: u16)
        requires
            old(self).wf(),
            x < 16,
            old(self).pc + 2 <= u16::MAX,
        ensures
            final(self).wf(),
            skip_key_pressed_rel(old(self)@, final(self)@, x),
    {
        let vx = self.v_registers[x as usize];
        proof {
            assert(vx & 0x0f < 16) by (bit_vector);
        }
        let key = (vx & 0x0f) as usize;
        if self.keyboard[key] {
            self.pc = self.pc + 2;
        }
    }

    /// ExA1: skip the next instruction if that key is up.
    pub fn sknp_vx(&mut self, x: u16)
        requires
            old(self).wf(),
            x < 16,
            old(self).pc + 2 <= u16::MAX,
        ensures
            final(self).wf(),
            skip_key_not_pressed_rel(old(self)@, final(self)@, x),
    {
        let vx = self.v_registers[x as usize];
        proof {
            assert(vx & 0x0f < 16) by (bit_vector);
        }
        let key = (vx & 0x0f) as usize;
        if !self.keyboard[key] {
            self.pc = self.pc + 2;
        }
    }

    /// Fx07: V[x] = delay timer.
    pub fn ld_vx_dt(&mut self, x: u16)
        requires
            old(self).wf(),
            x < 16,
        ensures
            final(self).wf(),
            load_delay_rel(old(self)@, final(self)@, x),
    {
        let dt = self.delay_timer;
        self.v_registers[x as usize] = dt;
    }

    /// Fx0A: enter the key-wait state.  The interpreter is driven one
    /// step at a time, so the wait is observable state, not a busy loop:
    /// `tick` resolves it once a pressed key is observed.
    pub fn ld_vx_k(&mut self, x: u16)
        requires
            old(self).wf(),
            x < 16,
        ensures
            final(self).wf(),
            wait_key_rel(old(self)@, final(self)@, x),
    {
        self.awaiting_key = Some(x as u8);
    }

    /// Fx15: delay timer = V[x].
    pub fn ld_dt_vx(&mut self, x: u16)
        requires
            old(self).wf(),
            x < 16,
        ensures
            final(self).wf(),
            store_delay_rel(old(self)@, final(self)@, x),
    {
        self.delay_timer = self.v_registers[x as usize];
    }

    /// Fx18: sound timer = V[x].
    pub fn ld_st_vx(&mut self, x: u16)
        requires
            old(self).wf(),
            x < 16,
        ensures
            final(self).wf(),
            store_sound_rel(old(self)@, final(self)@, x),
    {
        self.sound_timer = self.v_registers[x as usize];
    }

    /// Fx33: store the decimal digits of V[x] at I, I+1, I+2, reporting
    /// a memory-bounds error if the three bytes do not fit.
    pub fn store_bcd_of_vx_in_memory(&mut self, x: u16) -> (r: Result<(), Chip8Error>)
        requires
            old(self).wf(),
            x < 16,
        ensures
            final(self).wf(),
            store_bcd_rel(old(self)@, final(self)@, x, r),
    {
        if self.i_register as usize + 3 > CHIP8_RAM_MEMORY_SIZE {
            return Err(Chip8Error::MemoryOutOfBounds);
        }
        let vx = self.v_registers[x as usize];
        let mut bcd_vx: Vec<u8> = Chip8::extract_digits(vx);
        let ghost unpadded_len = bcd_vx@.len();
        if bcd_vx.len() < 3 {
            let diff = 3 - bcd_vx.len();
            let mut c: usize = 0;
            while c < diff
                invariant
                    c <= diff,
                    bcd_vx@.len() == unpadded_len + c,
                    bcd_vx@ =~= Seq::new(c as nat, |i: int| 0u8)
                        + crate::chip8_util::decimal_digits(vx as int),
                decreases diff - c,
            {
                bcd_vx.insert(0, 0);
                proof {
                    assert(bcd_vx@ =~= Seq::new((c + 1) as nat, |i: int| 0u8)
                        + crate::chip8_util::decimal_digits(vx as int));
                }
                c += 1;
            }
        }
        proof {
            crate::chip8_util::lemma_decimal_digits_u8(vx);
            assert(vx < 10 ==> vx / 100 == 0 && (vx / 10) % 10 == 0 && vx % 10 == vx)
                by (bit_vector);
            assert(10 <= vx && vx < 100 ==> vx / 100 == 0 && (vx / 10) % 10 == vx / 10)
                by (bit_vector);
            assert(bcd_vx@ =~= seq![
                crate::chip8_util::bcd_hundreds(vx),
                crate::chip8_util::bcd_tens(vx),
                crate::chip8_util::bcd_ones(vx),
            ]);
        }
        let i = self.i_register as usize;
        let d0 = bcd_vx[0];
        self.ram[i] = d0;
        let d1 = bcd_vx[1];
        self.ram[i + 1] = d1;
        let d2 = bcd_vx[2];
        self.ram[i + 2] = d2;
        Ok(())
    }

    /// Fx55: copy V[0]..=V[x] into memory at I, then move I past the
    /// copied bytes, reporting a memory-bounds error if they do not fit.
    #[verifier::loop_isolation(false)]
    pub fn fill_memory_with_v0_to_vx(&mut self, x: u16) -> (r: Result<(), Chip8Error>)
        requires
            old(self).wf(),
            x < 16,
        ensures
            final(self).wf(),
            store_regs_rel(old(self)@, final(self)@, x, r),
    {
        if self.i_register as usize + x as usize + 1 > CHIP8_RAM_MEMORY_SIZE {
            return Err(Chip8Error::MemoryOutOfBounds);
        }
        let i = self.i_register as usize;
        let mut v_register_index: usize = 0;
        while v_register_index <= x as usize
            invariant
                v_register_index <= x as usize + 1,
                self.ram@.len() == CHIP8_RAM_MEMORY_SIZE,
                forall|j: int|
                    0 <= j < v_register_index
                        ==> self.ram@[i + j] == old(self)@.v_registers[j],
                forall|j: int|
                    0 <= j < CHIP8_RAM_MEMORY_SIZE && !(i <= j < i + v_register_index)
                        ==> self.ram@[j] == old(self)@.ram[j],
                self.v_registers@ == old(self)@.v_registers,
                self.pc == old(self).pc,
                self.stack@ == old(self)@.stack,
                self.i_register == old(self).i_register,
                self.delay_timer == old(self).delay_timer,
                self.sound_timer == old(self).sound_timer,
                self.screen@ == old(self)@.screen,
                self.needs_redraw == old(self).needs_redraw,
                self.keyboard@ == old(self)@.keyboard,
                self.awaiting_key == old(self).awaiting_key,
                self.debug_mode == old(self).debug_mode,
                self.instructions_executed == old(self).instructions_executed,
            decreases x as usize + 1 - v_register_index,
        {
            let val = self.v_registers[v_register_index];
            self.ram[i + v_register_index] = val;
            v_register_index += 1;
        }
        self.i_register = self.i_register + x + 1;
        Ok(())
    }

    /// Fx65: fill V[0]..=V[x] from memory at I, then move I past the
    /// read bytes, reporting a memory-bounds error if they do not fit.
    #[verifier::loop_isolation(false)]
    pub fn fill_v0_to_vx_starting_at_i(&mut self, x: u16) -> (r: Result<(), Chip8Error>)
        requires
            old(self).wf(),
            x < 16,
        ensures
            final(self).wf(),
            load_regs_rel(old(self)@, final(self)@, x, r),
    {
        if self.i_register as usize + x as usize + 1 > CHIP8_RAM_MEMORY_SIZE {
            return Err(Chip8Error::MemoryOutOfBounds);
        }
        let i = self.i_register as usize;
        let mut v_register_index: usize = 0;
        while v_register_index <= x as usize
            invariant
                v_register_index <= x as usize + 1,
                self.v_registers@.len() == CHIP8_REGISTER_COUNT,
                forall|j: int|
                    0 <= j < v_register_index
                        ==> self.v_registers@[j] == old(self)@.ram[i + j],
                forall|j: int|
                    v_register_index <= j < CHIP8_REGISTER_COUNT
                        ==> self.v_registers@[j] == old(self)@.v_registers[j],
                self.ram@ == old(self)@.ram,
                self.pc == old(self).pc,
                self.stack@ == old(self)@.stack,
                self.i_register == old(self).i_register,
                self.delay_timer == old(self).delay_timer,
                self.sound_timer == old(self).sound_timer,
                self.screen@ == old(self)@.screen,
                self.needs_redraw == old(self).needs_redraw,
                self.keyboard@ == old(self)@.keyboard,
                self.awaiting_key == old(self).awaiting_key,
                self.debug_mode == old(self).debug_mode,
                self.instructions_executed == old(self).instructions_executed,
            decreases x as usize + 1 - v_register_index,
        {
            let val = self.ram[i + v_register_index];
            self.v_registers[v_register_index] = val;
            v_register_index += 1;
        }
        self.i_register = self.i_register + x + 1;
        Ok(())
    }

    /// Dxyn: XOR-blit an n-row sprite from memory at I to (V[x], V[y]).
    /// Every pixel wraps around both screen edges independently; VF is
    /// set exactly when a set pixel was erased.  Reading sprite bytes
    /// past the end of memory is the fatal memory-bounds error.
    #[verifier::loop_isolation(false)]
    pub fn draw_sprite_to_screen(&mut self, digits: (u16, u16, u16, u16)) -> (r: Result<
        (),
        Chip8Error,
    >)
        requires
            old(self).wf(),
            digits.1 < 16,
            digits.2 < 16,
        ensures
            final(self).wf(),
            draw_rel(old(self)@, final(self)@, digits.1, digits.2, digits.3, r),
    {
        let vx_register = digits.1 as usize;
        let vy_register = digits.2 as usize;
        let sprite_height = digits.3 as usize;
        if self.i_register as usize + sprite_height > CHIP8_RAM_MEMORY_SIZE {
            return Err(Chip8Error::MemoryOutOfBounds);
        }
        let x_coord = self.v_registers[vx_register] as usize;
        let y_coord = self.v_registers[vy_register] as usize;
        let i_register_value = self.i_register as usize;
        let mut pixel_change_to_unset = false;
        let mut row: usize = 0;
        while row < sprite_height
            invariant
                row <= sprite_height,
                self.screen@ == draw_sprite_pixels(
                    old(self)@.screen,
                    old(self)@.ram,
                    i_register_value as int,
                    x_coord as int,
                    y_coord as int,
                    row as int,
                ),
                pixel_change_to_unset == draw_sprite_erases(
                    old(self)@.screen,
                    old(self)@.ram,
                    i_register_value as int,
                    x_coord as int,
                    y_coord as int,
                    row as int,
                ),
                self.screen@.len() == SCREEN_WIDTH * SCREEN_HEIGHT,
                self.ram@ == old(self)@.ram,
                self.v_registers@ == old(self)@.v_registers,
                self.pc == old(self).pc,
                self.stack@ == old(self)@.stack,
                self.i_register == old(self).i_register,
                self.delay_timer == old(self).delay_timer,
                self.sound_timer == old(self).sound_timer,
                self.needs_redraw == old(self).needs_redraw,
                self.keyboard@ == old(self)@.keyboard,
                self.awaiting_key == old(self).awaiting_key,
                self.debug_mode == old(self).debug_mode,
                self.instructions_executed == old(self).instructions_executed,
            decreases sprite_height - row,
        {
            let sprite_byte = self.ram[i_register_value + row];
            let screen_y = (row + y_coord) % SCREEN_HEIGHT;
            let ghost row_screen = self.screen@;
            let ghost row_erased = pixel_change_to_unset;
            let mut col: usize = 0;
            while col < 8
                invariant
                    col <= 8,
                    self.screen@ == draw_row_pixels(
                        row_screen,
                        sprite_byte,
                        x_coord as int,
                        screen_y as int,
                        col as int,
                    ),
                    pixel_change_to_unset == (row_erased || draw_row_erases(
                        row_screen,
                        sprite_byte,
                        x_coord as int,
                        screen_y as int,
                        col as int,
                    )),
                    self.screen@.len() == SCREEN_WIDTH * SCREEN_HEIGHT,
                    self.ram@ == old(self)@.ram,
                    self.v_registers@ == old(self)@.v_registers,
                    self.pc == old(self).pc,
                    self.stack@ == old(self)@.stack,
                    self.i_register == old(self).i_register,
                    self.delay_timer == old(self).delay_timer,
                    self.sound_timer == old(self).sound_timer,
                    self.needs_redraw == old(self).needs_redraw,
                    self.keyboard@ == old(self)@.keyboard,
                    self.awaiting_key == old(self).awaiting_key,
                    self.debug_mode == old(self).debug_mode,
                    self.instructions_executed == old(self).instructions_executed,
                decreases 8 - col,
            {
                let shift: u8 = (7 - col) as u8;
                let sprite_pixel: u8 = (sprite_byte >> shift) & 1;
                let screen_x = (col + x_coord) % SCREEN_WIDTH;
                let screen_index = screen_y * SCREEN_WIDTH + screen_x;
                let old_pixel = self.screen[screen_index];
                let new_pixel = old_pixel ^ (sprite_pixel == 1);
                self.screen[screen_index] = new_pixel;
                if old_pixel == true && new_pixel == false {
                    pixel_change_to_unset = true;
                }
                col += 1;
            }
            row += 1;
        }
        if pixel_change_to_unset {
            self.v_registers[0xf] = 1;
        } else {
            self.v_registers[0xf] = 0;
        }
        self.needs_redraw = true;
        Ok(())
    }

    /// Fetch the next instruction word: the two bytes at the program
    /// counter combined big-endian, with the counter moved past them.
    /// A counter outside memory is the fatal runaway-program error.
    pub fn fetch(&mut self) -> (r: Result<u16, Chip8Error>)
        requires
            old(self).wf(),
        ensures
            final(self).wf(),
            fetch_rel(old(self)@, final(self)@, r),
    {
        let pc = self.pc as usize;
        if pc + 1 < CHIP8_RAM_MEMORY_SIZE {
            let high_byte = self.ram[pc];
            let low_byte = self.ram[pc + 1];
            self.pc = self.pc + 2;
            proof {
                assert((((high_byte as u16) << 8u16) | (low_byte as u16)) == (high_byte as u16)
                    * 256 + (low_byte as u16)) by (bit_vector);
            }
            Ok(((high_byte as u16) << 8u16) | (low_byte as u16))
        } else {
            Err(Chip8Error::FetchOutOfBounds)
        }
    }

    /// Decode one opcode word and execute its handler: the dispatch step
    /// of the cycle.  Unknown opcodes execute as no-ops; the fatal stack
    /// and memory conditions surface as errors.
    pub fn decode_execute(&mut self, op_code: u16) -> (r: Result<(), Chip8Error>)
        requires
            old(self).wf(),
            old(self).pc + 2 <= u16::MAX,
        ensures
            final(self).wf(),
            exec_rel(old(self)@, final(self)@, op_code, r),
    {
        proof {
            opcode_field_facts(op_code);
        }
        let op_digits = Chip8::extract_nibbles(op_code);
        let instruction = decode(op_code);
        match instruction {
            Instruction::Nop => Ok(()),
            Instruction::ClearScreen => {
                self.clear_screen();
                Ok(())
            },
            Instruction::Return => self.return_from_subroutine(),
            Instruction::Sys { .. } => {
                self.sys_addr(op_code);
                Ok(())
            },
            Instruction::Jump { .. } => {
                self.jump(op_code);
                Ok(())
            },
            Instruction::Call { .. } => self.call_subroutine(op_code),
            Instruction::SkipEqImm { .. } => {
                self.skip_if_equal(op_digits.1, op_digits.2, op_digits.3);
                Ok(())
            },
            Instruction::SkipNeImm { .. } => {
                self.skip_if_vx_not_eq_kk(op_digits.1, op_digits.2, op_digits.3);
                Ok(())
            },
            Instruction::SkipEqReg { .. } => {
                self.skip_if_vx_eq_vy(op_digits.1, op_digits.2);
                Ok(())
            },
            Instruction::LoadImm { .. } => {
                self.set_v_register(op_code);
                Ok(())
            },
            Instruction::AddImm { .. } => {
                self.add_value_to_v_register(op_code);
                Ok(())
            },
            Instruction::MoveReg { .. } => {
                self.store_vy_in_vx(op_digits.1, op_digits.2);
                Ok(())
            },
            Instruction::OrReg { .. } => {
                self.set_vx_with_vx_or_vy(op_digits.1, op_digits.2);
                Ok(())
            },
            Instruction::AndReg { .. } => {
                self.set_vx_with_vx_and_vy(op_digits.1, op_digits.2);
                Ok(())
            },
            Instruction::XorReg { .. } => {
                self.set_vx_with_vx_xor_vy(op_digits.1, op_digits.2);
                Ok(())
            },
            Instruction::AddReg { .. } => {
                self.add_vx_with_vy(op_digits.1, op_digits.2);
                Ok(())
            },
            Instruction::SubReg { .. } => {
                self.subtract_vy_from_vx(op_digits.1, op_digits.2);
                Ok(())
            },
            Instruction::ShrReg { .. } => {
                self.shr_vx(op_digits.1);
                Ok(())
            },
            Instruction::SubnReg { .. } => {
                self.subtract_vx_from_vy(op_digits.1, op_digits.2);
                Ok(())
            },
            Instruction::ShlReg { .. } => {
                self.shl_vx(op_digits.1);
                Ok(())
            },
            Instruction::SkipNeReg { .. } => {
                self.skip_if_vx_ne_vy(op_digits.1, op_digits.2);
                Ok(())
            },
            Instruction::LoadI { .. } => {
                self.set_i_register(op_code);
                Ok(())
            },
            Instruction::JumpV0 { .. } => {
                self.jump_v0_addr(op_code);
                Ok(())
            },
            Instruction::Random { .. } => {
                self.rnd_vx_byte(op_code);
                Ok(())
            },
            Instruction::Draw { .. } => self.draw_sprite_to_screen(op_digits),
            Instruction::SkipKeyPressed { .. } => {
                self.skp_vx(op_digits.1);
                Ok(())
            },
            Instruction::SkipKeyNotPressed { .. } => {
                self.sknp_vx(op_digits.1);
                Ok(())
            },
            Instruction::LoadDelay { .. } => {
                self.ld_vx_dt(op_digits.1);
                Ok(())
            },
            Instruction::WaitKey { .. } => {
                self.ld_vx_k(op_digits.1);
                Ok(())
            },
            Instruction::StoreDelay { .. } => {
                self.ld_dt_vx(op_digits.1);
                Ok(())
            },
            Instruction::StoreSound { .. } => {
                self.ld_st_vx(op_digits.1);
                Ok(())
            },
            Instruction::AddI { .. } => {
                self.add_vx_to_i(op_digits.1);
                Ok(())
            },
            Instruction::LoadFont { .. } => {
                self.ld_f_vx(op_digits.1);
                Ok(())
            },
            Instruction::StoreBcd { .. } => self.store_bcd_of_vx_in_memory(op_digits.1),
            Instruction::StoreRegs { .. } => self.fill_memory_with_v0_to_vx(op_digits.1),
            Instruction::LoadRegs { .. } => self.fill_v0_to_vx_starting_at_i(op_digits.1),
            Instruction::Unknown => Ok(()),
        }
    }

    /// One driver step.  A pending key-wait is resolved against the
    /// keyboard snapshot without fetching; otherwise one instruction is
    /// fetched, decoded and executed, and the dirty flag is consumed.
    pub fn tick(&mut self) -> (r: Result<(), Chip8Error>)
        requires
            old(self).wf(),
        ensures
            final(self).wf(),
            tick_rel(old(self)@, final(self)@, r),
    {
        match self.awaiting_key {
            Some(x) => {
                self.needs_redraw = false;
                self.check_awaited_key(x);
                return Ok(());
            },
            None => {},
        }
        self.needs_redraw = false;
        let op_code = match self.fetch() {
            Ok(word) => word,
            Err(e) => {
                return Err(e);
            },
        };
        if self.debug_mode {
            self.instructions_executed = self.instructions_executed.wrapping_add(1);
        }
        proof {
            assert(self@ =~= mid_state(old(self)@));
        }
        self.decode_execute(op_code)
    }

    /// Decrement each timer by one if it is nonzero; both clamp at zero.
    /// Driven by the host at its own fixed cadence, never by instruction
    /// execution.
    pub fn update_timers(&mut self)
        requires
            old(self).wf(),
        ensures
            final(self).wf(),
            timers_rel(old(self)@, final(self)@),
    {
        if self.delay_timer > 0 {
            self.delay_timer = self.delay_timer - 1;
        }
        if self.sound_timer > 0 {
            self.sound_timer = self.sound_timer - 1;
        }
    }

    /// Release every key of the snapshot.
    pub fn reset_keyboard(&mut self)
        requires
            old(self).wf(),
        ensures
            final(self).wf(),
            final(self)@.keyboard == Seq::new(KEY_COUNT as nat, |i: int| false),
            final(self)@.awaiting_key == old(self)@.awaiting_key,
            same_mem(old(self)@, final(self)@),
            same_ctrl(old(self)@, final(self)@),
            same_regs(old(self)@, final(self)@),
            same_display(old(self)@, final(self)@),
            same_timers(old(self)@, final(self)@),
            same_debug(old(self)@, final(self)@),
    {
        self.keyboard = filled_bools(KEY_COUNT, false);
    }

    /// Press or release one key of the snapshot.
    pub fn set_key(&mut self, key: u8, pressed: bool)
        requires
            old(self).wf(),
            key < 16,
        ensures
            final(self).wf(),
            final(self)@.keyboard == old(self)@.keyboard.update(key as int, pressed),
            final(self)@.awaiting_key == old(self)@.awaiting_key,
            same_mem(old(self)@, final(self)@),
            same_ctrl(old(self)@, final(self)@),
            same_regs(old(self)@, final(self)@),
            same_display(old(self)@, final(self)@),
            same_timers(old(self)@, final(self)@),
            same_debug(old(self)@, final(self)@),
    {
        self.keyboard[key as usize] = pressed;
    }

    /// Replace the whole 16-flag keyboard snapshot.
    pub fn set_key_state(&mut self, keys: &[bool])
        requires
            old(self).wf(),
            keys@.len() == KEY_COUNT,
        ensures
            final(self).wf(),
            final(self)@.keyboard == keys@,
            final(self)@.awaiting_key == old(self)@.awaiting_key,
            same_mem(old(self)@, final(self)@),
            same_ctrl(old(self)@, final(self)@),
            same_regs(old(self)@, final(self)@),
            same_display(old(self)@, final(self)@),
            same_timers(old(self)@, final(self)@),
            same_debug(old(self)@, final(self)@),
    {
        let mut k: usize = 0;
        while k < KEY_COUNT
            invariant
                k <= KEY_COUNT,
                keys@.len() == KEY_COUNT,
                self.keyboard@.len() == KEY_COUNT,
                forall|j: int| 0 <= j < k ==> self.keyboard@[j] == keys@[j],
                self.ram@ == old(self)@.ram,
                self.pc == old(self).pc,
                self.stack@ == old(self)@.stack,
                self.i_register == old(self).i_register,
                self.v_registers@ == old(self)@.v_registers,
                self.delay_timer == old(self).delay_timer,
                self.sound_timer == old(self).sound_timer,
                self.screen@ == old(self)@.screen,
                self.needs_redraw == old(self).needs_redraw,
                self.awaiting_key == old(self).awaiting_key,
                self.debug_mode == old(self).debug_mode,
                self.instructions_executed == old(self).instructions_executed,
            decreases KEY_COUNT - k,
        {
            let pressed = keys[k];
            self.keyboard[k] = pressed;
            k += 1;
        }
        proof {
            assert(self.keyboard@ =~= keys@);
        }
    }

    /// Resolve a pending key-wait against the current snapshot: the
    /// lowest pressed key, if any, lands in V[x] and the wait ends.
    fn check_awaited_key(&mut self, x: u8)
        requires
            old(self).wf(),
            x < 16,
        ensures
            final(self).wf(),
            match first_pressed(old(self)@.keyboard) {
                Some(k) => final(self)@.v_registers == old(self)@.v_registers.update(x as int, k)
                    && final(self)@.awaiting_key is None,
                None => final(self)@.v_registers == old(self)@.v_registers
                    && final(self)@.awaiting_key == old(self)@.awaiting_key,
            },
            final(self)@.keyboard == old(self)@.keyboard,
            final(self)@.i_register == old(self)@.i_register,
            same_mem(old(self)@, final(self)@),
            same_ctrl(old(self)@, final(self)@),
            same_display(old(self)@, final(self)@),
            same_timers(old(self)@, final(self)@),
            same_debug(old(self)@, final(self)@),
    {
        let mut k: usize = 0;
        while k < KEY_COUNT
            invariant
                old(self).wf(),
                x < 16,
                k <= KEY_COUNT,
                *self == *old(self),
                first_pressed(old(self)@.keyboard) == first_pressed_from(
                    old(self)@.keyboard,
                    k as int,
                ),
            decreases KEY_COUNT - k,
        {
            if self.keyboard[k] {
                self.v_registers[x as usize] = k as u8;
                self.awaiting_key = None;
                return;
            }
            k += 1;
        }
    }
}

/// A vector of `n` copies of `value`.
fn filled_bytes(n: usize, value: u8) -> (v: Vec<u8>)
    ensures
        v@ == Seq::new(n as nat, |i: int| value),
{
    let mut v: Vec<u8> = Vec::new();
    let mut k: usize = 0;
    while k < n
        invariant
            k <= n,
            v@.len() == k,
            forall|i: int| 0 <= i < k ==> v@[i] == value,
        decreases n - k,
    {
        v.push(value);
        k += 1;
    }
    proof {
        assert(v@ =~= Seq::new(n as nat, |i: int| value));
    }
    v
}

/// A vector of `n` copies of `value`.
fn filled_bools(n: usize, value: bool) -> (v: Vec<bool>)
    ensures
        v@ == Seq::new(n as nat, |i: int| value),
{
    let mut v: Vec<bool> = Vec::new();
    let mut k: usize = 0;
    while k < n
        invariant
            k <= n,
            v@.len() == k,
            forall|i: int| 0 <= i < k ==> v@[i] == value,
        decreases n - k,
    {
        v.push(value);
        k += 1;
    }
    proof {
        assert(v@ =~= Seq::new(n as nat, |i: int| value));
    }
    v
}

/// The font table as an in-memory vector, in glyph order.
fn font_table() -> (v: Vec<u8>)
    ensures
        v@ == font_data(),
        v@.len() == FONT_TABLE_BYTES,
{
    let mut v: Vec<u8> = Vec::new();
    v.push(0xF0); v.push(0x90); v.push(0x90); v.push(0x90); v.push(0xF0);
    v.push(0x20); v.push(0x60); v.push(0x20); v.push(0x20); v.push(0x70);
    v.push(0xF0); v.push(0x10); v.push(0xF0); v.push(0x80); v.push(0xF0);
    v.push(0xF0); v.push(0x10); v.push(0xF0); v.push(0x10); v.push(0xF0);
    v.push(0x90); v.push(0x90); v.push(0xF0); v.push(0x10); v.push(0x10);
    v.push(0xF0); v.push(0x80); v.push(0xF0); v.push(0x10); v.push(0xF0);
    v.push(0xF0); v.push(0x80); v.push(0xF0); v.push(0x90); v.push(0xF0);
    v.push(0xF0); v.push(0x10); v.push(0x20); v.push(0x40); v.push(0x40);
    v.push(0xF0); v.push(0x90); v.push(0xF0); v.push(0x90); v.push(0xF0);
    v.push(0xF0); v.push(0x90); v.push(0xF0); v.push(0x10); v.push(0xF0);
    v.push(0xF0); v.push(0x90); v.push(0xF0); v.push(0x90); v.push(0x90);
    v.push(0xE0); v.push(0x90); v.push(0xE0); v.push(0x90); v.push(0xE0);
    v.push(0xF0); v.push(0x80); v.push(0x80); v.push(0x80); v.push(0xF0);
    v.push(0xE0); v.push(0x90); v.push(0x90); v.push(0x90); v.push(0xE0);
    v.push(0xF0); v.push(0x80); v.push(0xF0); v.push(0x80); v.push(0xF0);
    v.push(0xF0); v.push(0x80); v.push(0xF0); v.push(0x80); v.push(0x80);
    v
}

} // verus!
