use vstd::prelude::*;

verus! {

/// The operation an instruction word selects; its operands stay in the word
/// and are read with the field functions below.
#[derive(Clone, Copy, Debug, PartialEq, Eq, Structural)]
pub enum Op {
    Cls,
    Ret,
    Jp,
    Call,
    SeVxByte,
    SneVxByte,
    SeVxVy,
    LdVxByte,
    AddVxByte,
    LdVxVy,
    OrVxVy,
    AndVxVy,
    XorVxVy,
    AddVxVy,
    SubVxVy,
    ShrVx,
    SubnVxVy,
    ShlVx,
    SneVxVy,
    LdIAddr,
    JpV0Addr,
    RndVxByte,
    Drw,
    SkpVx,
    SknpVx,
    LdVxDt,
    LdVxKey,
    LdDtVx,
    LdStVx,
    AddIVx,
    LdFVx,
    LdBVx,
    StoreRegs,
    LoadRegs,
    Unknown,
}

/// Top nibble: the operation group.
pub open spec fn group_of(op: u16) -> int {
    op as int / 4096
}

/// Second nibble: the `x` register index.
pub open spec fn x_of(op: u16) -> int {
    (op as int / 256) % 16
}

/// Third nibble: the `y` register index.
pub open spec fn y_of(op: u16) -> int {
    (op as int / 16) % 16
}

/// Low nibble: a row count or a sub-operation.
pub open spec fn n_of(op: u16) -> int {
    op as int % 16
}

/// Low byte: an immediate.
pub open spec fn kk_of(op: u16) -> int {
    op as int % 256
}

/// Low twelve bits: an address.
pub open spec fn nnn_of(op: u16) -> int {
    op as int % 4096
}

/// The operation that an instruction word encodes.
pub open spec fn decode_spec(op: u16) -> Op {
    let g = group_of(op);
    let n = n_of(op);
    let kk = kk_of(op);
    if op == 0x00E0 {
        Op::Cls
    } else if op == 0x00EE {
        Op::Ret
    } else if g == 1 {
        Op::Jp
    } else if g == 2 {
        Op::Call
    } else if g == 3 {
        Op::SeVxByte
    } else if g == 4 {
        Op::SneVxByte
    } else if g == 5 && n == 0 {
        Op::SeVxVy
    } else if g == 6 {
        Op::LdVxByte
    } else if g == 7 {
        Op::AddVxByte
    } else if g == 8 && n == 0 {
        Op::LdVxVy
    } else if g == 8 && n == 1 {
        Op::OrVxVy
    } else if g == 8 && n == 2 {
        Op::AndVxVy
    } else if g == 8 && n == 3 {
        Op::XorVxVy
    } else if g == 8 && n == 4 {
        Op::AddVxVy
    } else if g == 8 && n == 5 {
        Op::SubVxVy
    } else if g == 8 && n == 6 {
        Op::ShrVx
    } else if g == 8 && n == 7 {
        Op::SubnVxVy
    } else if g == 8 && n == 0xE {
        Op::ShlVx
    } else if g == 9 && n == 0 {
        Op::SneVxVy
    } else if g == 0xA {
        Op::LdIAddr
    } else if g == 0xB {
        Op::JpV0Addr
    } else if g == 0xC {
        Op::RndVxByte
    } else if g == 0xD {
        Op::Drw
    } else if g == 0xE && kk == 0x9E {
        Op::SkpVx
    } else if g == 0xE && kk == 0xA1 {
        Op::SknpVx
    } else if g == 0xF && kk == 0x07 {
        Op::LdVxDt
    } else if g == 0xF && kk == 0x0A {
        Op::LdVxKey
    } else if g == 0xF && kk == 0x15 {
        Op::LdDtVx
    } else if g == 0xF && kk == 0x18 {
        Op::LdStVx
    } else if g == 0xF && kk == 0x1E {
        Op::AddIVx
    } else if g == 0xF && kk == 0x29 {
        Op::LdFVx
    } else if g == 0xF && kk == 0x33 {
        Op::LdBVx
    } else if g == 0xF && kk == 0x55 {
        Op::StoreRegs
    } else if g == 0xF && kk == 0x65 {
        Op::LoadRegs
    } else {
        Op::Unknown
    }
}

pub fn x_field(op: u16) -> (r: usize)
    ensures
        r == x_of(op),
        r < 16,
{
    ((op / 256) % 16) as usize
}

pub fn y_field(op: u16) -> (r: usize)
    ensures
        r == y_of(op),
        r < 16,
{
    ((op / 16) % 16) as usize
}

pub fn n_field(op: u16) -> (r: usize)
    ensures
        r == n_of(op),
        r < 16,
{
    (op % 16) as usize
}

pub fn kk_field(op: u16) -> (r: u8)
    ensures
        r == kk_of(op),
{
    (op % 256) as u8
}

pub fn nnn_field(op: u16) -> (r: u16)
    ensures
        r == nnn_of(op),
        r < 4096,
{
    op % 4096
}

/// Resolves an instruction word to its operation; words that match no
/// pattern give `Op::Unknown`.
pub fn decode(op: u16) -> (r: Op)
    ensures
        r == decode_spec(op),
{
    let g = op / 4096;
    let n = op % 16;
    let kk = op % 256;
    if op == 0x00E0 {
        Op::Cls
    } else if op == 0x00EE {
        Op::Ret
    } else if g == 1 {
        Op::Jp
    } else if g == 2 {
        Op::Call
    } else if g == 3 {
        Op::SeVxByte
    } else if g == 4 {
        Op::SneVxByte
    } else if g == 5 && n == 0 {
        Op::SeVxVy
    } else if g == 6 {
        Op::LdVxByte
    } else if g == 7 {
        Op::AddVxByte
    } else if g == 8 {
        match n {
            0 => Op::LdVxVy,
            1 => Op::OrVxVy,
            2 => Op::AndVxVy,
            3 => Op::XorVxVy,
            4 => Op::AddVxVy,
            5 => Op::SubVxVy,
            6 => Op::ShrVx,
            7 => Op::SubnVxVy,
            0xE => Op::ShlVx,
            _ => Op::Unknown,
        }
    } else if g == 9 && n == 0 {
        Op::SneVxVy
    } else if g == 0xA {
        Op::LdIAddr
    } else if g == 0xB {
        Op::JpV0Addr
    } else if g == 0xC {
        Op::RndVxByte
    } else if g == 0xD {
        Op::Drw
    } else if g == 0xE {
        match kk {
            0x9E => Op::SkpVx,
            0xA1 => Op::SknpVx,
            _ => Op::Unknown,
        }
    } else if g == 0xF {
        match kk {
            0x07 => Op::LdVxDt,
            0x0A => Op::LdVxKey,
            0x15 => Op::LdDtVx,
            0x18 => Op::LdStVx,
            0x1E => Op::AddIVx,
            0x29 => Op::LdFVx,
            0x33 => Op::LdBVx,
            0x55 => Op::StoreRegs,
            0x65 => Op::LoadRegs,
            _ => Op::Unknown,
        }
    } else {
        Op::Unknown
    }
}

} // verus!
