//! The decoder: every 16-bit word maps to exactly one instruction variant.
use vstd::prelude::*;

verus! {

/// One decoded instruction. Operand fields follow the usual naming: `nnn`
/// a 12-bit address, `kk` an 8-bit immediate, `x` and `y` 4-bit register
/// indices, `n` a 4-bit count. Words that match no known form decode to
/// `Unknown`, which executes as a recorded no-op that advances the cursor.
#[derive(Clone, Copy, Debug, PartialEq, Eq, Structural)]
pub enum Instr {
    Cls,
    Ret,
    Jp { nnn: u16 },
    Call { nnn: u16 },
    SeByte { x: u8, kk: u8 },
    SneByte { x: u8, kk: u8 },
    SeReg { x: u8, y: u8 },
    LdByte { x: u8, kk: u8 },
    AddByte { x: u8, kk: u8 },
    LdReg { x: u8, y: u8 },
    Or { x: u8, y: u8 },
    And { x: u8, y: u8 },
    Xor { x: u8, y: u8 },
    AddReg { x: u8, y: u8 },
    Sub { x: u8, y: u8 },
    Shr { x: u8 },
    Subn { x: u8, y: u8 },
    Shl { x: u8 },
    SneReg { x: u8, y: u8 },
    LdI { nnn: u16 },
    JpV0 { nnn: u16 },
    Rnd { x: u8, kk: u8 },
    Drw { x: u8, y: u8, n: u8 },
    Skp { x: u8 },
    Sknp { x: u8 },
    LdFromDt { x: u8 },
    WaitKey { x: u8 },
    LdDt { x: u8 },
    LdSt { x: u8 },
    AddI { x: u8 },
    LdFont { x: u8 },
    Bcd { x: u8 },
    Dump { x: u8 },
    LoadRegs { x: u8 },
    Unknown { op: u16 },
}

/// What the decoder returns, as a mathematical function of the word.
/// The four nibbles of `op`, high to low, are `op / 0x1000`,
/// `(op / 0x100) % 0x10`, `(op / 0x10) % 0x10` and `op % 0x10`.
pub open spec fn spec_decode(op: u16) -> Instr {
    let a = op / 0x1000;
    let x = ((op / 0x100) % 0x10) as u8;
    let y = ((op / 0x10) % 0x10) as u8;
    let n = (op % 0x10) as u8;
    let kk = (op % 0x100) as u8;
    let nnn = op % 0x1000;
    if op == 0x00E0 {
        Instr::Cls
    } else if op == 0x00EE {
        Instr::Ret
    } else if a == 0x1 {
        Instr::Jp { nnn }
    } else if a == 0x2 {
        Instr::Call { nnn }
    } else if a == 0x3 {
        Instr::SeByte { x, kk }
    } else if a == 0x4 {
        Instr::SneByte { x, kk }
    } else if a == 0x5 && n == 0x0 {
        Instr::SeReg { x, y }
    } else if a == 0x6 {
        Instr::LdByte { x, kk }
    } else if a == 0x7 {
        Instr::AddByte { x, kk }
    } else if a == 0x8 && n == 0x0 {
        Instr::LdReg { x, y }
    } else if a == 0x8 && n == 0x1 {
        Instr::Or { x, y }
    } else if a == 0x8 && n == 0x2 {
        Instr::And { x, y }
    } else if a == 0x8 && n == 0x3 {
        Instr::Xor { x, y }
    } else if a == 0x8 && n == 0x4 {
        Instr::AddReg { x, y }
    } else if a == 0x8 && n == 0x5 {
        Instr::Sub { x, y }
    } else if a == 0x8 && n == 0x6 {
        Instr::Shr { x }
    } else if a == 0x8 && n == 0x7 {
        Instr::Subn { x, y }
    } else if a == 0x8 && n == 0xE {
        Instr::Shl { x }
    } else if a == 0x9 && n == 0x0 {
        Instr::SneReg { x, y }
    } else if a == 0xA {
        Instr::LdI { nnn }
    } else if a == 0xB {
        Instr::JpV0 { nnn }
    } else if a == 0xC {
        Instr::Rnd { x, kk }
    } else if a == 0xD {
        Instr::Drw { x, y, n }
    } else if a == 0xE && y == 0x9 && n == 0xE {
        Instr::Skp { x }
    } else if a == 0xE && y == 0xA && n == 0x1 {
        Instr::Sknp { x }
    } else if a == 0xF && y == 0x0 && n == 0x7 {
        Instr::LdFromDt { x }
    } else if a == 0xF && y == 0x0 && n == 0xA {
        Instr::WaitKey { x }
    } else if a == 0xF && y == 0x1 && n == 0x5 {
        Instr::LdDt { x }
    } else if a == 0xF && y == 0x1 && n == 0x8 {
        Instr::LdSt { x }
    } else if a == 0xF && y == 0x1 && n == 0xE {
        Instr::AddI { x }
    } else if a == 0xF && y == 0x2 && n == 0x9 {
        Instr::LdFont { x }
    } else if a == 0xF && y == 0x3 && n == 0x3 {
        Instr::Bcd { x }
    } else if a == 0xF && y == 0x5 && n == 0x5 {
        Instr::Dump { x }
    } else if a == 0xF && y == 0x6 && n == 0x5 {
        Instr::LoadRegs { x }
    } else {
        Instr::Unknown { op }
    }
}

/// Decode one fetched word. Decoding is total: every word maps to exactly
/// one variant.
pub fn decode(op: u16) -> (r: Instr)
    ensures
        r == spec_decode(op),
{
    let a = op / 0x1000;
    let x = ((op / 0x100) % 0x10) as u8;
    let y = ((op / 0x10) % 0x10) as u8;
    let n = (op % 0x10) as u8;
    let kk = (op % 0x100) as u8;
    let nnn = op % 0x1000;
    if op == 0x00E0 {
        Instr::Cls
    } else if op == 0x00EE {
        Instr::Ret
    } else if a == 0x1 {
        Instr::Jp { nnn }
    } else if a == 0x2 {
        Instr::Call { nnn }
    } else if a == 0x3 {
        Instr::SeByte { x, kk }
    } else if a == 0x4 {
        Instr::SneByte { x, kk }
    } else if a == 0x5 && n == 0x0 {
        Instr::SeReg { x, y }
    } else if a == 0x6 {
        Instr::LdByte { x, kk }
    } else if a == 0x7 {
        Instr::AddByte { x, kk }
    } else if a == 0x8 && n == 0x0 {
        Instr::LdReg { x, y }
    } else if a == 0x8 && n == 0x1 {
        Instr::Or { x, y }
    } else if a == 0x8 && n == 0x2 {
        Instr::And { x, y }
    } else if a == 0x8 && n == 0x3 {
        Instr::Xor { x, y }
    } else if a == 0x8 && n == 0x4 {
        Instr::AddReg { x, y }
    } else if a == 0x8 && n == 0x5 {
        Instr::Sub { x, y }
    } else if a == 0x8 && n == 0x6 {
        Instr::Shr { x }
    } else if a == 0x8 && n == 0x7 {
        Instr::Subn { x, y }
    } else if a == 0x8 && n == 0xE {
        Instr::Shl { x }
    } else if a == 0x9 && n == 0x0 {
        Instr::SneReg { x, y }
    } else if a == 0xA {
        Instr::LdI { nnn }
    } else if a == 0xB {
        Instr::JpV0 { nnn }
    } else if a == 0xC {
        Instr::Rnd { x, kk }
    } else if a == 0xD {
        Instr::Drw { x, y, n }
    } else if a == 0xE && y == 0x9 && n == 0xE {
        Instr::Skp { x }
    } else if a == 0xE && y == 0xA && n == 0x1 {
        Instr::Sknp { x }
    } else if a == 0xF && y == 0x0 && n == 0x7 {
        Instr::LdFromDt { x }
    } else if a == 0xF && y == 0x0 && n == 0xA {
        Instr::WaitKey { x }
    } else if a == 0xF && y == 0x1 && n == 0x5 {
        Instr::LdDt { x }
    } else if a == 0xF && y == 0x1 && n == 0x8 {
        Instr::LdSt { x }
    } else if a == 0xF && y == 0x1 && n == 0xE {
        Instr::AddI { x }
    } else if a == 0xF && y == 0x2 && n == 0x9 {
        Instr::LdFont { x }
    } else if a == 0xF && y == 0x3 && n == 0x3 {
        Instr::Bcd { x }
    } else if a == 0xF && y == 0x5 && n == 0x5 {
        Instr::Dump { x }
    } else if a == 0xF && y == 0x6 && n == 0x5 {
        Instr::LoadRegs { x }
    } else {
        Instr::Unknown { op }
    }
}

} // verus!
