//! Decoding: splitting a 16-bit opcode into its addressing fields and
//! classifying it as one of the instruction kinds.
//!
//! `decode_spec` is the authoritative opcode table; `decode` is its
//! executable twin.  Classification is total and side-effect free: a
//! pattern that matches nothing is `Unknown`, which executes as a no-op.
use vstd::prelude::*;

verus! {

/// High nibble of the high byte.
pub open spec fn nib1(op: u16) -> u16 {
    (op & 0xf000) >> 12
}

/// Low nibble of the high byte: the X register field.
pub open spec fn nib2(op: u16) -> u16 {
    (op & 0x0f00) >> 8
}

/// High nibble of the low byte: the Y register field or a sub-opcode.
pub open spec fn nib3(op: u16) -> u16 {
    (op & 0x00f0) >> 4
}

/// Low nibble of the low byte: a sub-opcode or the sprite height.
pub open spec fn nib4(op: u16) -> u16 {
    op & 0x000f
}

/// The composite 12-bit address field.
pub open spec fn addr_nnn(op: u16) -> u16 {
    op & 0x0fff
}

/// The composite 8-bit immediate.
pub open spec fn imm_kk(op: u16) -> u8 {
    (op & 0x00ff) as u8
}

/// Bounds of the decoded fields and how the composite fields are put
/// together from the nibbles.
pub proof fn opcode_field_facts(op: u16)
    by (bit_vector)
    ensures
        nib1(op) < 16,
        nib2(op) < 16,
        nib3(op) < 16,
        nib4(op) < 16,
        addr_nnn(op) <= 0xfff,
        ((nib3(op) << 4) | nib4(op)) < 256,
        ((nib3(op) << 4) | nib4(op)) as u8 == imm_kk(op),
{
}

/// One decoded instruction, carrying its operands.  The variants follow
/// the instruction groups of the opcode table.
#[derive(Clone, Copy, Debug, PartialEq, Eq, Structural)]
pub enum Instruction {
    /// 0000: does nothing.
    Nop,
    /// 00E0: clear the framebuffer.
    ClearScreen,
    /// 00EE: pop the stack into the program counter.
    Return,
    /// 0nnn: legacy machine-code call, ignored.
    Sys { nnn: u16 },
    /// 1nnn: jump.
    Jump { nnn: u16 },
    /// 2nnn: call a subroutine.
    Call { nnn: u16 },
    /// 3xkk: skip the next instruction if V[x] == kk.
    SkipEqImm { x: u16, kk: u8 },
    /// 4xkk: skip the next instruction if V[x] != kk.
    SkipNeImm { x: u16, kk: u8 },
    /// 5xy0: skip the next instruction if V[x] == V[y].
    SkipEqReg { x: u16, y: u16 },
    /// 6xkk: V[x] = kk.
    LoadImm { x: u16, kk: u8 },
    /// 7xkk: V[x] += kk, wrapping, flags untouched.
    AddImm { x: u16, kk: u8 },
    /// 8xy0: V[x] = V[y].
    MoveReg { x: u16, y: u16 },
    /// 8xy1: V[x] |= V[y].
    OrReg { x: u16, y: u16 },
    /// 8xy2: V[x] &= V[y].
    AndReg { x: u16, y: u16 },
    /// 8xy3: V[x] ^= V[y].
    XorReg { x: u16, y: u16 },
    /// 8xy4: V[x] += V[y], VF = carry.
    AddReg { x: u16, y: u16 },
    /// 8xy5: V[x] -= V[y], VF = not borrow.
    SubReg { x: u16, y: u16 },
    /// 8xy6: VF = low bit of V[x], then V[x] >>= 1.
    ShrReg { x: u16 },
    /// 8xy7: V[x] = V[y] - V[x], VF = not borrow.
    SubnReg { x: u16, y: u16 },
    /// 8xyE: VF = high bit of V[x], then V[x] <<= 1.
    ShlReg { x: u16 },
    /// 9xy0: skip the next instruction if V[x] != V[y].
    SkipNeReg { x: u16, y: u16 },
    /// Annn: I = nnn.
    LoadI { nnn: u16 },
    /// Bnnn: jump to nnn + V[0].
    JumpV0 { nnn: u16 },
    /// Cxkk: V[x] = random byte masked with kk.
    Random { x: u16, kk: u8 },
    /// Dxyn: draw an n-row sprite from memory at I to (V[x], V[y]).
    Draw { x: u16, y: u16, n: u16 },
    /// Ex9E: skip the next instruction if the key V[x] is down.
    SkipKeyPressed { x: u16 },
    /// ExA1: skip the next instruction if the key V[x] is up.
    SkipKeyNotPressed { x: u16 },
    /// Fx07: V[x] = delay timer.
    LoadDelay { x: u16 },
    /// Fx0A: block until a key press and store its code in V[x].
    WaitKey { x: u16 },
    /// Fx15: delay timer = V[x].
    StoreDelay { x: u16 },
    /// Fx18: sound timer = V[x].
    StoreSound { x: u16 },
    /// Fx1E: I += V[x], wrapping.
    AddI { x: u16 },
    /// Fx29: I = address of the font glyph for the low nibble of V[x].
    LoadFont { x: u16 },
    /// Fx33: store the three decimal digits of V[x] at I, I+1, I+2.
    StoreBcd { x: u16 },
    /// Fx55: copy V[0]..=V[x] to memory at I; then I += x + 1.
    StoreRegs { x: u16 },
    /// Fx65: read V[0]..=V[x] from memory at I; then I += x + 1.
    LoadRegs { x: u16 },
    /// Anything else: executes as a no-op.
    Unknown,
}

/// The opcode table: a total map from opcode words to instruction kinds.
pub open spec fn decode_spec(op: u16) -> Instruction {
    let d1 = nib1(op);
    let d2 = nib2(op);
    let d3 = nib3(op);
    let d4 = nib4(op);
    if d1 == 0 {
        if d2 == 0 && d3 == 0 && d4 == 0 {
            Instruction::Nop
        } else if d2 == 0 && d3 == 0xe && d4 == 0 {
            Instruction::ClearScreen
        } else if d2 == 0 && d3 == 0xe && d4 == 0xe {
            Instruction::Return
        } else {
            Instruction::Sys { nnn: addr_nnn(op) }
        }
    } else if d1 == 0x1 {
        Instruction::Jump { nnn: addr_nnn(op) }
    } else if d1 == 0x2 {
        Instruction::Call { nnn: addr_nnn(op) }
    } else if d1 == 0x3 {
        Instruction::SkipEqImm { x: d2, kk: imm_kk(op) }
    } else if d1 == 0x4 {
        Instruction::SkipNeImm { x: d2, kk: imm_kk(op) }
    } else if d1 == 0x5 && d4 == 0 {
        Instruction::SkipEqReg { x: d2, y: d3 }
    } else if d1 == 0x6 {
        Instruction::LoadImm { x: d2, kk: imm_kk(op) }
    } else if d1 == 0x7 {
        Instruction::AddImm { x: d2, kk: imm_kk(op) }
    } else if d1 == 0x8 && d4 == 0 {
        Instruction::MoveReg { x: d2, y: d3 }
    } else if d1 == 0x8 && d4 == 1 {
        Instruction::OrReg { x: d2, y: d3 }
    } else if d1 == 0x8 && d4 == 2 {
        Instruction::AndReg { x: d2, y: d3 }
    } else if d1 == 0x8 && d4 == 3 {
        Instruction::XorReg { x: d2, y: d3 }
    } else if d1 == 0x8 && d4 == 4 {
        Instruction::AddReg { x: d2, y: d3 }
    } else if d1 == 0x8 && d4 == 5 {
        Instruction::SubReg { x: d2, y: d3 }
    } else if d1 == 0x8 && d4 == 6 {
        Instruction::ShrReg { x: d2 }
    } else if d1 == 0x8 && d4 == 7 {
        Instruction::SubnReg { x: d2, y: d3 }
    } else if d1 == 0x8 && d4 == 0xe {
        Instruction::ShlReg { x: d2 }
    } else if d1 == 0x9 && d4 == 0 {
        Instruction::SkipNeReg { x: d2, y: d3 }
    } else if d1 == 0xa {
        Instruction::LoadI { nnn: addr_nnn(op) }
    } else if d1 == 0xb {
        Instruction::JumpV0 { nnn: addr_nnn(op) }
    } else if d1 == 0xc {
        Instruction::Random { x: d2, kk: imm_kk(op) }
    } else if d1 == 0xd {
        Instruction::Draw { x: d2, y: d3, n: d4 }
    } else if d1 == 0xe && d3 == 9 && d4 == 0xe {
        Instruction::SkipKeyPressed { x: d2 }
    } else if d1 == 0xe && d3 == 0xa && d4 == 1 {
        Instruction::SkipKeyNotPressed { x: d2 }
    } else if d1 == 0xf && d3 == 0 && d4 == 7 {
        Instruction::LoadDelay { x: d2 }
    } else if d1 == 0xf && d3 == 0 && d4 == 0xa {
        Instruction::WaitKey { x: d2 }
    } else if d1 == 0xf && d3 == 1 && d4 == 5 {
        Instruction::StoreDelay { x: d2 }
    } else if d1 == 0xf && d3 == 1 && d4 == 8 {
        Instruction::StoreSound { x: d2 }
    } else if d1 == 0xf && d3 == 1 && d4 == 0xe {
        Instruction::AddI { x: d2 }
    } else if d1 == 0xf && d3 == 2 && d4 == 9 {
        Instruction::LoadFont { x: d2 }
    } else if d1 == 0xf && d3 == 3 && d4 == 3 {
        Instruction::StoreBcd { x: d2 }
    } else if d1 == 0xf && d3 == 5 && d4 == 5 {
        Instruction::StoreRegs { x: d2 }
    } else if d1 == 0xf && d3 == 6 && d4 == 5 {
        Instruction::LoadRegs { x: d2 }
    } else {
        Instruction::Unknown
    }
}

/// Classify one opcode word.  Pure: the classification is separate from
/// handler execution so the opcode table can be tested in isolation.
pub fn decode(op: u16) -> (instruction: Instruction)
    ensures
        instruction == decode_spec(op),
{
    let d1 = (op & 0xf000) >> 12;
    let d2 = (op & 0x0f00) >> 8;
    let d3 = (op & 0x00f0) >> 4;
    let d4 = op & 0x000f;
    let nnn = op & 0x0fff;
    let kk = (op & 0x00ff) as u8;
    if d1 == 0 {
        if d2 == 0 && d3 == 0 && d4 == 0 {
            Instruction::Nop
        } else if d2 == 0 && d3 == 0xe && d4 == 0 {
            Instruction::ClearScreen
        } else if d2 == 0 && d3 == 0xe && d4 == 0xe {
            Instruction::Return
        } else {
            Instruction::Sys { nnn }
        }
    } else if d1 == 0x1 {
        Instruction::Jump { nnn }
    } else if d1 == 0x2 {
        Instruction::Call { nnn }
    } else if d1 == 0x3 {
        Instruction::SkipEqImm { x: d2, kk }
    } else if d1 == 0x4 {
        Instruction::SkipNeImm { x: d2, kk }
    } else if d1 == 0x5 && d4 == 0 {
        Instruction::SkipEqReg { x: d2, y: d3 }
    } else if d1 == 0x6 {
        Instruction::LoadImm { x: d2, kk }
    } else if d1 == 0x7 {
        Instruction::AddImm { x: d2, kk }
    } else if d1 == 0x8 && d4 == 0 {
        Instruction::MoveReg { x: d2, y: d3 }
    } else if d1 == 0x8 && d4 == 1 {
        Instruction::OrReg { x: d2, y: d3 }
    } else if d1 == 0x8 && d4 == 2 {
        Instruction::AndReg { x: d2, y: d3 }
    } else if d1 == 0x8 && d4 == 3 {
        Instruction::XorReg { x: d2, y: d3 }
    } else if d1 == 0x8 && d4 == 4 {
        Instruction::AddReg { x: d2, y: d3 }
    } else if d1 == 0x8 && d4 == 5 {
        Instruction::SubReg { x: d2, y: d3 }
    } else if d1 == 0x8 && d4 == 6 {
        Instruction::ShrReg { x: d2 }
    } else if d1 == 0x8 && d4 == 7 {
        Instruction::SubnReg { x: d2, y: d3 }
    } else if d1 == 0x8 && d4 == 0xe {
        Instruction::ShlReg { x: d2 }
    } else if d1 == 0x9 && d4 == 0 {
        Instruction::SkipNeReg { x: d2, y: d3 }
    } else if d1 == 0xa {
        Instruction::LoadI { nnn }
    } else if d1 == 0xb {
        Instruction::JumpV0 { nnn }
    } else if d1 == 0xc {
        Instruction::Random { x: d2, kk }
    } else if d1 == 0xd {
        Instruction::Draw { x: d2, y: d3, n: d4 }
    } else if d1 == 0xe && d3 == 9 && d4 == 0xe {
        Instruction::SkipKeyPressed { x: d2 }
    } else if d1 == 0xe && d3 == 0xa && d4 == 1 {
        Instruction::SkipKeyNotPressed { x: d2 }
    } else if d1 == 0xf && d3 == 0 && d4 == 7 {
        Instruction::LoadDelay { x: d2 }
    } else if d1 == 0xf && d3 == 0 && d4 == 0xa {
        Instruction::WaitKey { x: d2 }
    } else if d1 == 0xf && d3 == 1 && d4 == 5 {
        Instruction::StoreDelay { x: d2 }
    } else if d1 == 0xf && d3 == 1 && d4 == 8 {
        Instruction::StoreSound { x: d2 }
    } else if d1 == 0xf && d3 == 1 && d4 == 0xe {
        Instruction::AddI { x: d2 }
    } else if d1 == 0xf && d3 == 2 && d4 == 9 {
        Instruction::LoadFont { x: d2 }
    } else if d1 == 0xf && d3 == 3 && d4 == 3 {
        Instruction::StoreBcd { x: d2 }
    } else if d1 == 0xf && d3 == 5 && d4 == 5 {
        Instruction::StoreRegs { x: d2 }
    } else if d1 == 0xf && d3 == 6 && d4 == 5 {
        Instruction::LoadRegs { x: d2 }
    } else {
        Instruction::Unknown
    }
}

} // verus!
