//! The instruction set: the tagged form of each 16-bit instruction word and
//! the decoder that produces it.

use vstd::prelude::*;

verus! {

/// One decoded instruction with its operands. `x` and `y` are register
/// indices, `byte` an 8-bit immediate, `addr` a 12-bit address and `rows` a
/// sprite height.
#[derive(Clone, Copy, Debug, PartialEq, Eq, Structural)]
pub enum Instruction {
    /// `00E0`: clear the framebuffer.
    ClearScreen,
    /// `00EE`: return from a subroutine.
    Return,
    /// `1nnn`: jump to `addr`.
    Jump { addr: u16 },
    /// `2nnn`: call the subroutine at `addr`.
    Call { addr: u16 },
    /// `3xkk`: skip the next instruction if `Vx == byte`.
    SkipIfEqual { x: u8, byte: u8 },
    /// `4xkk`: skip the next instruction if `Vx != byte`.
    SkipIfNotEqual { x: u8, byte: u8 },
    /// `5xy0`: skip the next instruction if `Vx == Vy`.
    SkipIfRegistersEqual { x: u8, y: u8 },
    /// `6xkk`: `Vx := byte`.
    Load { x: u8, byte: u8 },
    /// `7xkk`: `Vx := Vx + byte`, wrapping, flag untouched.
    AddByte { x: u8, byte: u8 },
    /// `8xy0`: `Vx := Vy`.
    Move { x: u8, y: u8 },
    /// `8xy1`: `Vx := Vx | Vy`.
    Or { x: u8, y: u8 },
    /// `8xy2`: `Vx := Vx & Vy`.
    And { x: u8, y: u8 },
    /// `8xy3`: `Vx := Vx ^ Vy`.
    Xor { x: u8, y: u8 },
    /// `8xy4`: `Vx := Vx + Vy`, flag set on carry.
    Add { x: u8, y: u8 },
    /// `8xy5`: `Vx := Vx - Vy`, flag set when there is no borrow.
    Sub { x: u8, y: u8 },
    /// `8xy6`: flag := lowest bit of `Vx`, then `Vx := Vx >> 1`.
    ShiftRight { x: u8 },
    /// `8xy7`: `Vx := Vy - Vx`, flag set when there is no borrow.
    SubFrom { x: u8, y: u8 },
    /// `8xyE`: flag := highest bit of `Vx`, then `Vx := Vx << 1`.
    ShiftLeft { x: u8 },
    /// `9xy0`: skip the next instruction if `Vx != Vy`.
    SkipIfRegistersDiffer { x: u8, y: u8 },
    /// `Annn`: address register := `addr`.
    LoadAddress { addr: u16 },
    /// `Bnnn`: jump to `addr + V0`.
    JumpOffset { addr: u16 },
    /// `Cxkk`: `Vx := random byte & byte`.
    Random { x: u8, byte: u8 },
    /// `Dxyn`: draw the `rows`-row sprite at the address register at
    /// `(Vx, Vy)`, flag := collision.
    Draw { x: u8, y: u8, rows: u8 },
    /// `Ex9E`: skip the next instruction if the latched key equals `Vx`.
    SkipIfKey { x: u8 },
    /// `ExA1`: skip the next instruction if the latched key differs from `Vx`.
    SkipIfNotKey { x: u8 },
    /// `Fx07`: `Vx := delay timer`.
    ReadDelay { x: u8 },
    /// `Fx0A`: wait for a key, then `Vx := key`.
    WaitKey { x: u8 },
    /// `Fx15`: delay timer := `Vx`.
    SetDelay { x: u8 },
    /// `Fx18`: sound timer := `Vx`.
    SetSound { x: u8 },
    /// `Fx1E`: address register += `Vx`, wrapping at 16 bits.
    AddAddress { x: u8 },
    /// `Fx29`: address register := address of the glyph for digit `Vx`.
    Glyph { x: u8 },
    /// `Fx33`: store the three decimal digits of `Vx` at the address register.
    StoreDecimal { x: u8 },
    /// `Fx55`: store `V0..=Vx` at the address register.
    StoreRegisters { x: u8 },
    /// `Fx65`: load `V0..=Vx` from the address register.
    LoadRegisters { x: u8 },
    /// Any other word.
    Unrecognized { opcode: u16 },
}

impl Instruction {
    /// Operands are in range: register indices and the sprite height below
    /// 16, addresses below 4096.
    pub open spec fn wf(self) -> bool {
        match self {
            Instruction::ClearScreen | Instruction::Return | Instruction::Unrecognized { .. } => true,
            Instruction::Jump { addr }
            | Instruction::Call { addr }
            | Instruction::LoadAddress { addr }
            | Instruction::JumpOffset { addr } => addr < 0x1000,
            Instruction::SkipIfEqual { x, .. }
            | Instruction::SkipIfNotEqual { x, .. }
            | Instruction::Load { x, .. }
            | Instruction::AddByte { x, .. }
            | Instruction::Random { x, .. }
            | Instruction::ShiftRight { x }
            | Instruction::ShiftLeft { x }
            | Instruction::SkipIfKey { x }
            | Instruction::SkipIfNotKey { x }
            | Instruction::ReadDelay { x }
            | Instruction::WaitKey { x }
            | Instruction::SetDelay { x }
            | Instruction::SetSound { x }
            | Instruction::AddAddress { x }
            | Instruction::Glyph { x }
            | Instruction::StoreDecimal { x }
            | Instruction::StoreRegisters { x }
            | Instruction::LoadRegisters { x } => x < 16,
            Instruction::SkipIfRegistersEqual { x, y }
            | Instruction::Move { x, y }
            | Instruction::Or { x, y }
            | Instruction::And { x, y }
            | Instruction::Xor { x, y }
            | Instruction::Add { x, y }
            | Instruction::Sub { x, y }
            | Instruction::SubFrom { x, y }
            | Instruction::SkipIfRegistersDiffer { x, y } => x < 16 && y < 16,
            Instruction::Draw { x, y, rows } => x < 16 && y < 16 && rows < 16,
        }
    }
}

/// The opcode class of a word: its highest nibble.
pub open spec fn field_class(opcode: u16) -> int {
    opcode as int / 0x1000
}

/// The second nibble of a word: the register index `x`.
pub open spec fn field_x(opcode: u16) -> u8 {
    ((opcode as int / 0x100) % 16) as u8
}

/// The third nibble of a word: the register index `y`.
pub open spec fn field_y(opcode: u16) -> u8 {
    ((opcode as int / 0x10) % 16) as u8
}

/// The lowest nibble of a word.
pub open spec fn field_n(opcode: u16) -> u8 {
    (opcode as int % 16) as u8
}

/// The low byte of a word: the immediate `kk`.
pub open spec fn field_kk(opcode: u16) -> u8 {
    (opcode as int % 0x100) as u8
}

/// The low 12 bits of a word: the address `nnn`.
pub open spec fn field_nnn(opcode: u16) -> u16 {
    (opcode as int % 0x1000) as u16
}

/// The instruction that a word encodes.
pub open spec fn decode_spec(opcode: u16) -> Instruction {
    let class = field_class(opcode);
    let x = field_x(opcode);
    let y = field_y(opcode);
    let n = field_n(opcode);
    let byte = field_kk(opcode);
    let addr = field_nnn(opcode);
    if opcode == 0x00E0 {
        Instruction::ClearScreen
    } else if opcode == 0x00EE {
        Instruction::Return
    } else if class == 0x1 {
        Instruction::Jump { addr }
    } else if class == 0x2 {
        Instruction::Call { addr }
    } else if class == 0x3 {
        Instruction::SkipIfEqual { x, byte }
    } else if class == 0x4 {
        Instruction::SkipIfNotEqual { x, byte }
    } else if class == 0x5 && n == 0x0 {
        Instruction::SkipIfRegistersEqual { x, y }
    } else if class == 0x6 {
        Instruction::Load { x, byte }
    } else if class == 0x7 {
        Instruction::AddByte { x, byte }
    } else if class == 0x8 && n == 0x0 {
        Instruction::Move { x, y }
    } else if class == 0x8 && n == 0x1 {
        Instruction::Or { x, y }
    } else if class == 0x8 && n == 0x2 {
        Instruction::And { x, y }
    } else if class == 0x8 && n == 0x3 {
        Instruction::Xor { x, y }
    } else if class == 0x8 && n == 0x4 {
        Instruction::Add { x, y }
    } else if class == 0x8 && n == 0x5 {
        Instruction::Sub { x, y }
    } else if class == 0x8 && n == 0x6 {
        Instruction::ShiftRight { x }
    } else if class == 0x8 && n == 0x7 {
        Instruction::SubFrom { x, y }
    } else if class == 0x8 && n == 0xE {
        Instruction::ShiftLeft { x }
    } else if class == 0x9 && n == 0x0 {
        Instruction::SkipIfRegistersDiffer { x, y }
    } else if class == 0xA {
        Instruction::LoadAddress { addr }
    } else if class == 0xB {
        Instruction::JumpOffset { addr }
    } else if class == 0xC {
        Instruction::Random { x, byte }
    } else if class == 0xD {
        Instruction::Draw { x, y, rows: n }
    } else if class == 0xE && byte == 0x9E {
        Instruction::SkipIfKey { x }
    } else if class == 0xE && byte == 0xA1 {
        Instruction::SkipIfNotKey { x }
    } else if class == 0xF && byte == 0x07 {
        Instruction::ReadDelay { x }
    } else if class == 0xF && byte == 0x0A {
        Instruction::WaitKey { x }
    } else if class == 0xF && byte == 0x15 {
        Instruction::SetDelay { x }
    } else if class == 0xF && byte == 0x18 {
        Instruction::SetSound { x }
    } else if class == 0xF && byte == 0x1E {
        Instruction::AddAddress { x }
    } else if class == 0xF && byte == 0x29 {
        Instruction::Glyph { x }
    } else if class == 0xF && byte == 0x33 {
        Instruction::StoreDecimal { x }
    } else if class == 0xF && byte == 0x55 {
        Instruction::StoreRegisters { x }
    } else if class == 0xF && byte == 0x65 {
        Instruction::LoadRegisters { x }
    } else {
        Instruction::Unrecognized { opcode }
    }
}

/// Every word decodes to an instruction with operands in range.
pub proof fn lemma_decode_wf(opcode: u16)
    ensures
        decode_spec(opcode).wf(),
{
}

/// Decodes an instruction word.
pub fn decode(opcode: u16) -> (instruction: Instruction)
    ensures
        instruction == decode_spec(opcode),
        instruction.wf(),
{
    let x = ((opcode & 0x0F00) >> 8) as u8;
    let y = ((opcode & 0x00F0) >> 4) as u8;
    let hi = ((opcode & 0xF000) >> 12) as u8;
    let n = (opcode & 0x000F) as u8;
    let byte = (opcode & 0x00FF) as u8;
    let addr = opcode & 0x0FFF;
    assert(((opcode & 0x0F00) >> 8) == (opcode / 0x100) % 16) by (bit_vector);
    assert(((opcode & 0x00F0) >> 4) == (opcode / 0x10) % 16) by (bit_vector);
    assert(((opcode & 0xF000) >> 12) == opcode / 0x1000) by (bit_vector);
    assert(opcode & 0x000F == opcode % 16) by (bit_vector);
    assert(opcode & 0x00FF == opcode % 0x100) by (bit_vector);
    assert(opcode & 0x0FFF == opcode % 0x1000) by (bit_vector);
    match (hi, x, y, n) {
        (0x0, 0x0, 0xE, 0x0) => Instruction::ClearScreen,
        (0x0, 0x0, 0xE, 0xE) => Instruction::Return,
        (0x1, _, _, _) => Instruction::Jump { addr },
        (0x2, _, _, _) => Instruction::Call { addr },
        (0x3, _, _, _) => Instruction::SkipIfEqual { x, byte },
        (0x4, _, _, _) => Instruction::SkipIfNotEqual { x, byte },
        (0x5, _, _, 0x0) => Instruction::SkipIfRegistersEqual { x, y },
        (0x6, _, _, _) => Instruction::Load { x, byte },
        (0x7, _, _, _) => Instruction::AddByte { x, byte },
        (0x8, _, _, 0x0) => Instruction::Move { x, y },
        (0x8, _, _, 0x1) => Instruction::Or { x, y },
        (0x8, _, _, 0x2) => Instruction::And { x, y },
        (0x8, _, _, 0x3) => Instruction::Xor { x, y },
        (0x8, _, _, 0x4) => Instruction::Add { x, y },
        (0x8, _, _, 0x5) => Instruction::Sub { x, y },
        (0x8, _, _, 0x6) => Instruction::ShiftRight { x },
        (0x8, _, _, 0x7) => Instruction::SubFrom { x, y },
        (0x8, _, _, 0xE) => Instruction::ShiftLeft { x },
        (0x9, _, _, 0x0) => Instruction::SkipIfRegistersDiffer { x, y },
        (0xA, _, _, _) => Instruction::LoadAddress { addr },
        (0xB, _, _, _) => Instruction::JumpOffset { addr },
        (0xC, _, _, _) => Instruction::Random { x, byte },
        (0xD, _, _, _) => Instruction::Draw { x, y, rows: n },
        (0xE, _, 0x9, 0xE) => Instruction::SkipIfKey { x },
        (0xE, _, 0xA, 0x1) => Instruction::SkipIfNotKey { x },
        (0xF, _, 0x0, 0x7) => Instruction::ReadDelay { x },
        (0xF, _, 0x0, 0xA) => Instruction::WaitKey { x },
        (0xF, _, 0x1, 0x5) => Instruction::SetDelay { x },
        (0xF, _, 0x1, 0x8) => Instruction::SetSound { x },
        (0xF, _, 0x1, 0xE) => Instruction::AddAddress { x },
        (0xF, _, 0x2, 0x9) => Instruction::Glyph { x },
        (0xF, _, 0x3, 0x3) => Instruction::StoreDecimal { x },
        (0xF, _, 0x5, 0x5) => Instruction::StoreRegisters { x },
        (0xF, _, 0x6, 0x5) => Instruction::LoadRegisters { x },
        (_, _, _, _) => Instruction::Unrecognized { opcode },
    }
}

} // verus!
