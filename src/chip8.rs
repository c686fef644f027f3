use vstd::prelude::*;

use crate::font::{fontset, font_seq, FONTSET_SIZE, FONTSET_START_ADDRESS};
use crate::opcode::{decode, decode_spec, Op, kk_field, kk_of, n_field, n_of, nnn_field, nnn_of, x_field, x_of, y_field, y_of};

verus! {

pub const MEMORY_SIZE: usize = 4096;
pub const REGISTER_COUNT: usize = 16;
pub const KEY_COUNT: usize = 16;
pub const STACK_SIZE: usize = 16;
pub const SCREEN_WIDTH: usize = 64;
pub const SCREEN_HEIGHT: usize = 32;
pub const SCREEN_SIZE: usize = 2048;
pub const PROGRAM_START_ADDRESS: usize = 0x200;
/// Largest program that fits between the program start and the end of memory.
pub const MAX_PROGRAM_SIZE: usize = 3584;
/// Highest address at which a whole instruction word can be fetched.
pub const LAST_INSTRUCTION_ADDRESS: u16 = 0xFFE;
pub const FLAG_REGISTER: usize = 0xF;

/// Why a program could not be loaded; memory is left as it was.
#[derive(Clone, Copy, Debug, PartialEq, Eq, Structural)]
pub enum LoadError {
    TooLarge,
}

/// A fatal condition met by `step`; the machine is left as it was before it.
#[derive(Clone, Copy, Debug, PartialEq, Eq, Structural)]
pub enum ExecError {
    StackOverflow,
    StackUnderflow,
    PcOutOfRange,
}

/// The complete state of the machine.
///
/// Policies chosen where the instruction set leaves room:
/// - `I` is a 16-bit register; `Fx1E` adds with 16-bit wraparound and leaves
///   `VF` alone, and every memory access through `I` is taken modulo 4096.
/// - `Ex9E` / `ExA1` treat a key number above 0xF as a key that is up.
/// - `Fx29` uses the low nibble of `Vx`.
/// - An instruction is fetched only from 0x200 ..= 0xFFE; elsewhere `step`
///   fails with `ExecError::PcOutOfRange`.
/// - `Fx0A` sets `waiting_key`; until `set_key` reports a press, `step`
///   changes nothing.
/// - An unknown instruction word only advances `pc` and is recorded in
///   `last_unknown`.
pub struct Chip8 {
    pub memory: Vec<u8>,
    pub registers: Vec<u8>,
    pub index_register: u16,
    pub program_counter: u16,
    pub screen: Vec<bool>,
    pub delay_timer: u8,
    pub sound_timer: u8,
    pub stack: Vec<u16>,
    pub stack_pointer: u8,
    pub keys: Vec<bool>,
    pub waiting_key: Option<u8>,
    pub last_unknown: Option<u16>,
}

/// The machine as mathematical values.
pub struct MachineView {
    pub memory: Seq<u8>,
    pub registers: Seq<u8>,
    pub index: u16,
    pub pc: u16,
    pub screen: Seq<bool>,
    pub delay: u8,
    pub sound: u8,
    pub stack: Seq<u16>,
    pub sp: u8,
    pub keys: Seq<bool>,
    pub waiting: Option<u8>,
    pub last_unknown: Option<u16>,
}

impl View for Chip8 {
    type V = MachineView;

    open spec fn view(&self) -> MachineView {
        MachineView {
            memory: self.memory@,
            registers: self.registers@,
            index: self.index_register,
            pc: self.program_counter,
            screen: self.screen@,
            delay: self.delay_timer,
            sound: self.sound_timer,
            stack: self.stack@,
            sp: self.stack_pointer,
            keys: self.keys@,
            waiting: self.waiting_key,
            last_unknown: self.last_unknown,
        }
    }
}

/// Memory with the font written at its reserved region.
pub open spec fn with_font(mem: Seq<u8>) -> Seq<u8> {
    Seq::new(
        mem.len(),
        |a: int|
            if 0x50 <= a < 0x50 + 80 {
                font_seq()[a - 0x50]
            } else {
                mem[a]
            },
    )
}

/// Memory with `prog` copied from the program start on.
pub open spec fn with_program(mem: Seq<u8>, prog: Seq<u8>) -> Seq<u8> {
    Seq::new(
        mem.len(),
        |a: int|
            if 0x200 <= a < 0x200 + prog.len() {
                prog[a - 0x200]
            } else {
                mem[a]
            },
    )
}

/// An address relative to the index register, taken modulo the memory size.
pub open spec fn addr(i: u16, k: int) -> int {
    (i as int + k) % 4096
}

impl MachineView {
    pub open spec fn wf(self) -> bool {
        &&& self.memory.len() == 4096
        &&& self.registers.len() == 16
        &&& self.screen.len() == 2048
        &&& self.stack.len() == 16
        &&& self.keys.len() == 16
        &&& self.sp <= 16
        &&& (self.waiting matches Some(x) ==> x < 16)
    }

    /// The state right after construction.
    pub open spec fn initial() -> MachineView {
        MachineView {
            memory: with_font(Seq::new(4096, |a: int| 0u8)),
            registers: Seq::new(16, |i: int| 0u8),
            index: 0,
            pc: 0x200,
            screen: Seq::new(2048, |i: int| false),
            delay: 0,
            sound: 0,
            stack: Seq::new(16, |i: int| 0u16),
            sp: 0,
            keys: Seq::new(16, |i: int| false),
            waiting: None,
            last_unknown: None,
        }
    }

    pub open spec fn reg(self, i: int) -> u8 {
        self.registers[i]
    }

    pub open spec fn vx(self, op: u16) -> u8 {
        self.registers[x_of(op)]
    }

    pub open spec fn vy(self, op: u16) -> u8 {
        self.registers[y_of(op)]
    }

    pub open spec fn set_reg(self, i: int, v: u8) -> MachineView {
        MachineView { registers: self.registers.update(i, v), ..self }
    }

    /// Moves `pc` one instruction further when `c` holds.
    pub open spec fn skip_if(self, c: bool) -> MachineView {
        if c {
            MachineView { pc: (self.pc + 2) as u16, ..self }
        } else {
            self
        }
    }
}

/// 00E0: every pixel off.
pub open spec fn cls_spec(m: MachineView) -> MachineView {
    MachineView { screen: Seq::new(2048, |i: int| false), ..m }
}

/// 00EE: pop the return address.
pub open spec fn ret_spec(m: MachineView) -> Result<MachineView, ExecError> {
    if m.sp == 0 {
        Err(ExecError::StackUnderflow)
    } else {
        Ok(MachineView { sp: (m.sp - 1) as u8, pc: m.stack[m.sp - 1], ..m })
    }
}

/// 1nnn
pub open spec fn jp_spec(m: MachineView, op: u16) -> MachineView {
    MachineView { pc: nnn_of(op) as u16, ..m }
}

/// 2nnn: push `pc`, jump.
pub open spec fn call_spec(m: MachineView, op: u16) -> Result<MachineView, ExecError> {
    if m.sp == 16 {
        Err(ExecError::StackOverflow)
    } else {
        Ok(
            MachineView {
                stack: m.stack.update(m.sp as int, m.pc),
                sp: (m.sp + 1) as u8,
                pc: nnn_of(op) as u16,
                ..m
            },
        )
    }
}

/// 3xkk
pub open spec fn se_vx_byte_spec(m: MachineView, op: u16) -> MachineView {
    m.skip_if(m.vx(op) == kk_of(op))
}

/// 4xkk
pub open spec fn sne_vx_byte_spec(m: MachineView, op: u16) -> MachineView {
    m.skip_if(m.vx(op) != kk_of(op))
}

/// 5xy0
pub open spec fn se_vx_vy_spec(m: MachineView, op: u16) -> MachineView {
    m.skip_if(m.vx(op) == m.vy(op))
}

/// 9xy0
pub open spec fn sne_vx_vy_spec(m: MachineView, op: u16) -> MachineView {
    m.skip_if(m.vx(op) != m.vy(op))
}

/// 6xkk
pub open spec fn ld_vx_byte_spec(m: MachineView, op: u16) -> MachineView {
    m.set_reg(x_of(op), kk_of(op) as u8)
}

/// 7xkk: add with wraparound; `VF` is left alone.
pub open spec fn add_vx_byte_spec(m: MachineView, op: u16) -> MachineView {
    m.set_reg(x_of(op), ((m.vx(op) + kk_of(op)) % 256) as u8)
}

/// 8xy0
pub open spec fn ld_vx_vy_spec(m: MachineView, op: u16) -> MachineView {
    m.set_reg(x_of(op), m.vy(op))
}

/// 8xy1
pub open spec fn or_vx_vy_spec(m: MachineView, op: u16) -> MachineView {
    m.set_reg(x_of(op), m.vx(op) | m.vy(op))
}

/// 8xy2
pub open spec fn and_vx_vy_spec(m: MachineView, op: u16) -> MachineView {
    m.set_reg(x_of(op), m.vx(op) & m.vy(op))
}

/// 8xy3
pub open spec fn xor_vx_vy_spec(m: MachineView, op: u16) -> MachineView {
    m.set_reg(x_of(op), m.vx(op) ^ m.vy(op))
}

/// 8xy4: `Vx = Vx + Vy` modulo 256, then `VF` = 1 on carry, else 0.
pub open spec fn add_vx_vy_spec(m: MachineView, op: u16) -> MachineView {
    let sum = m.vx(op) + m.vy(op);
    m.set_reg(x_of(op), (sum % 256) as u8).set_reg(0xF, if sum > 255 { 1u8 } else { 0u8 })
}

/// 8xy5: `Vx = Vx - Vy` modulo 256, then `VF` = 1 when `Vx >= Vy` before.
pub open spec fn sub_vx_vy_spec(m: MachineView, op: u16) -> MachineView {
    let vx = m.vx(op);
    let vy = m.vy(op);
    m.set_reg(x_of(op), ((vx - vy + 256) % 256) as u8).set_reg(
        0xF,
        if vx >= vy { 1u8 } else { 0u8 },
    )
}

/// 8xy6: `VF` = the bit shifted out, then `Vx = Vx >> 1`.
pub open spec fn shr_vx_spec(m: MachineView, op: u16) -> MachineView {
    let vx = m.vx(op);
    m.set_reg(0xF, (vx % 2) as u8).set_reg(x_of(op), (vx / 2) as u8)
}

/// 8xy7: `Vx = Vy - Vx` modulo 256, then `VF` = 1 when `Vy >= Vx` before.
pub open spec fn subn_vx_vy_spec(m: MachineView, op: u16) -> MachineView {
    let vx = m.vx(op);
    let vy = m.vy(op);
    m.set_reg(x_of(op), ((vy - vx + 256) % 256) as u8).set_reg(
        0xF,
        if vy >= vx { 1u8 } else { 0u8 },
    )
}

/// 8xyE: `VF` = the top bit, then `Vx = Vx << 1` modulo 256.
pub open spec fn shl_vx_spec(m: MachineView, op: u16) -> MachineView {
    let vx = m.vx(op);
    m.set_reg(0xF, (vx / 128) as u8).set_reg(x_of(op), ((vx * 2) % 256) as u8)
}

/// Annn
pub open spec fn ld_i_addr_spec(m: MachineView, op: u16) -> MachineView {
    MachineView { index: nnn_of(op) as u16, ..m }
}

/// Bnnn
pub open spec fn jp_v0_addr_spec(m: MachineView, op: u16) -> MachineView {
    MachineView { pc: (nnn_of(op) + m.reg(0)) as u16, ..m }
}

/// Cxkk, with `random` as the drawn byte.
pub open spec fn rnd_vx_byte_spec(m: MachineView, op: u16, random: u8) -> MachineView {
    m.set_reg(x_of(op), random & (kk_of(op) as u8))
}

/// Bit `c` of a sprite row, counted from the left.
pub open spec fn pixel_bit(row: u8, c: int) -> bool {
    (row >> ((7 - c) as u8)) & 1u8 == 1u8
}

/// Whether a set sprite pixel lands on display cell `cell` when the `n`-row
/// sprite at `mem[i..]` is drawn at (`vx`, `vy`), wrapping at the edges.
pub open spec fn sprite_covers(mem: Seq<u8>, i: u16, vx: u8, vy: u8, n: int, cell: int) -> bool {
    let c = (cell % 64 + 64 - vx as int % 64) % 64;
    let r = (cell / 64 + 32 - vy as int % 32) % 32;
    r < n && c < 8 && pixel_bit(mem[addr(i, r)], c)
}

/// The display after XOR-drawing the sprite.
pub open spec fn drawn(screen: Seq<bool>, mem: Seq<u8>, i: u16, vx: u8, vy: u8, n: int) -> Seq<bool> {
    Seq::new(2048, |j: int| screen[j] != sprite_covers(mem, i, vx, vy, n, j))
}

/// Whether drawing the sprite turns some lit pixel off.
pub open spec fn collides(screen: Seq<bool>, mem: Seq<u8>, i: u16, vx: u8, vy: u8, n: int) -> bool {
    exists|j: int| 0 <= j < 2048 && screen[j] && sprite_covers(mem, i, vx, vy, n, j)
}

/// Dxyn: draw, then `VF` = 1 on collision, else 0.
pub open spec fn drw_spec(m: MachineView, op: u16) -> MachineView {
    let s = drawn(m.screen, m.memory, m.index, m.vx(op), m.vy(op), n_of(op));
    let hit = collides(m.screen, m.memory, m.index, m.vx(op), m.vy(op), n_of(op));
    MachineView { screen: s, ..m }.set_reg(0xF, if hit { 1u8 } else { 0u8 })
}

/// Whether key `k` is down; there is no key above 0xF.
pub open spec fn key_down(m: MachineView, k: u8) -> bool {
    k < 16 && m.keys[k as int]
}

/// Ex9E
pub open spec fn skp_vx_spec(m: MachineView, op: u16) -> MachineView {
    m.skip_if(key_down(m, m.vx(op)))
}

/// ExA1
pub open spec fn sknp_vx_spec(m: MachineView, op: u16) -> MachineView {
    m.skip_if(!key_down(m, m.vx(op)))
}

/// Fx07
pub open spec fn ld_vx_dt_spec(m: MachineView, op: u16) -> MachineView {
    m.set_reg(x_of(op), m.delay)
}

/// Fx0A: wait for a key press that will land in `Vx`.
pub open spec fn ld_vx_key_spec(m: MachineView, op: u16) -> MachineView {
    MachineView { waiting: Some(x_of(op) as u8), ..m }
}

/// Fx15
pub open spec fn ld_dt_vx_spec(m: MachineView, op: u16) -> MachineView {
    MachineView { delay: m.vx(op), ..m }
}

/// Fx18
pub open spec fn ld_st_vx_spec(m: MachineView, op: u16) -> MachineView {
    MachineView { sound: m.vx(op), ..m }
}

/// Fx1E: 16-bit wraparound, `VF` untouched.
pub open spec fn add_i_vx_spec(m: MachineView, op: u16) -> MachineView {
    MachineView { index: ((m.index + m.vx(op)) % 65536) as u16, ..m }
}

/// Fx29: the glyph of the low nibble of `Vx`.
pub open spec fn ld_f_vx_spec(m: MachineView, op: u16) -> MachineView {
    MachineView { index: (0x50 + 5 * (m.vx(op) % 16)) as u16, ..m }
}

/// Fx33: hundreds, tens and ones of `Vx` at `I`, `I+1`, `I+2`.
pub open spec fn ld_b_vx_spec(m: MachineView, op: u16) -> MachineView {
    let v = m.vx(op);
    MachineView {
        memory: m.memory.update(addr(m.index, 0), (v / 100) as u8).update(
            addr(m.index, 1),
            ((v / 10) % 10) as u8,
        ).update(addr(m.index, 2), (v % 10) as u8),
        ..m
    }
}

/// How far address `a` lies past `I`, modulo the memory size.
pub open spec fn offset(i: u16, a: int) -> int {
    (a + 4096 - i as int % 4096) % 4096
}

/// Fx55: `V0..=Vx` to `memory[I..=I+x]`.
pub open spec fn store_regs_spec(m: MachineView, op: u16) -> MachineView {
    MachineView {
        memory: Seq::new(
            4096,
            |a: int|
                if offset(m.index, a) <= x_of(op) {
                    m.registers[offset(m.index, a)]
                } else {
                    m.memory[a]
                },
        ),
        ..m
    }
}

/// Fx65: `memory[I..=I+x]` to `V0..=Vx`.
pub open spec fn load_regs_spec(m: MachineView, op: u16) -> MachineView {
    MachineView {
        registers: Seq::new(
            16,
            |j: int|
                if j <= x_of(op) {
                    m.memory[addr(m.index, j)]
                } else {
                    m.registers[j]
                },
        ),
        ..m
    }
}

/// What one decoded instruction does to a machine whose `pc` already
/// points past it.
#[verifier::opaque]
pub open spec fn execute_spec(m: MachineView, op: u16, random: u8) -> Result<MachineView, ExecError> {
    match decode_spec(op) {
        Op::Cls => Ok(cls_spec(m)),
        Op::Ret => ret_spec(m),
        Op::Jp => Ok(jp_spec(m, op)),
        Op::Call => call_spec(m, op),
        Op::SeVxByte => Ok(se_vx_byte_spec(m, op)),
        Op::SneVxByte => Ok(sne_vx_byte_spec(m, op)),
        Op::SeVxVy => Ok(se_vx_vy_spec(m, op)),
        Op::LdVxByte => Ok(ld_vx_byte_spec(m, op)),
        Op::AddVxByte => Ok(add_vx_byte_spec(m, op)),
        Op::LdVxVy => Ok(ld_vx_vy_spec(m, op)),
        Op::OrVxVy => Ok(or_vx_vy_spec(m, op)),
        Op::AndVxVy => Ok(and_vx_vy_spec(m, op)),
        Op::XorVxVy => Ok(xor_vx_vy_spec(m, op)),
        Op::AddVxVy => Ok(add_vx_vy_spec(m, op)),
        Op::SubVxVy => Ok(sub_vx_vy_spec(m, op)),
        Op::ShrVx => Ok(shr_vx_spec(m, op)),
        Op::SubnVxVy => Ok(subn_vx_vy_spec(m, op)),
        Op::ShlVx => Ok(shl_vx_spec(m, op)),
        Op::SneVxVy => Ok(sne_vx_vy_spec(m, op)),
        Op::LdIAddr => Ok(ld_i_addr_spec(m, op)),
        Op::JpV0Addr => Ok(jp_v0_addr_spec(m, op)),
        Op::RndVxByte => Ok(rnd_vx_byte_spec(m, op, random)),
        Op::Drw => Ok(drw_spec(m, op)),
        Op::SkpVx => Ok(skp_vx_spec(m, op)),
        Op::SknpVx => Ok(sknp_vx_spec(m, op)),
        Op::LdVxDt => Ok(ld_vx_dt_spec(m, op)),
        Op::LdVxKey => Ok(ld_vx_key_spec(m, op)),
        Op::LdDtVx => Ok(ld_dt_vx_spec(m, op)),
        Op::LdStVx => Ok(ld_st_vx_spec(m, op)),
        Op::AddIVx => Ok(add_i_vx_spec(m, op)),
        Op::LdFVx => Ok(ld_f_vx_spec(m, op)),
        Op::LdBVx => Ok(ld_b_vx_spec(m, op)),
        Op::StoreRegs => Ok(store_regs_spec(m, op)),
        Op::LoadRegs => Ok(load_regs_spec(m, op)),
        Op::Unknown => Ok(MachineView { last_unknown: Some(op), ..m }),
    }
}

/// Whether an instruction can be fetched at `pc`.
pub open spec fn fetchable(pc: u16) -> bool {
    0x200 <= pc <= 0xFFE
}

/// The big-endian instruction word at `pc`.
pub open spec fn fetch_spec(m: MachineView) -> u16 {
    (m.memory[m.pc as int] * 256 + m.memory[m.pc + 1]) as u16
}

/// One cycle: nothing while waiting for a key; otherwise fetch, advance
/// `pc` by one instruction and execute. A failure leaves the machine as it
/// was before the cycle.
pub open spec fn step_spec(m: MachineView, random: u8) -> (Result<(), ExecError>, MachineView) {
    if m.waiting is Some {
        (Ok(()), m)
    } else if !fetchable(m.pc) {
        (Err(ExecError::PcOutOfRange), m)
    } else {
        match execute_spec(MachineView { pc: (m.pc + 2) as u16, ..m }, fetch_spec(m), random) {
            Ok(m2) => (Ok(()), m2),
            Err(e) => (Err(e), m),
        }
    }
}

/// A key changes state; a press while waiting lands in the waiting register.
pub open spec fn set_key_spec(m: MachineView, key: u8, down: bool) -> MachineView {
    let m1 = MachineView { keys: m.keys.update(key as int, down), ..m };
    match m.waiting {
        Some(x) if down => MachineView { waiting: None, ..m1 }.set_reg(x as int, key),
        _ => m1,
    }
}

/// Both timers count down by one toward zero.
pub open spec fn tick_spec(m: MachineView) -> MachineView {
    MachineView {
        delay: if m.delay > 0 { (m.delay - 1) as u8 } else { 0u8 },
        sound: if m.sound > 0 { (m.sound - 1) as u8 } else { 0u8 },
        ..m
    }
}

proof fn lemma_offset_addr(i: u16, k: int, a: int)
    requires
        0 <= k < 4096,
        0 <= a < 4096,
    ensures
        0 <= addr(i, k) < 4096,
        offset(i, addr(i, k)) == k,
        (offset(i, a) == k) <==> (a == addr(i, k)),
{
}

/// XOR-draws the `n`-row sprite at `memory[i..]` at (`vx`, `vy`) and tells
/// whether a lit pixel went off.
fn xor_sprite(screen: &mut Vec<bool>, memory: &Vec<u8>, i: u16, vx: u8, vy: u8, n: usize) -> (hit: bool)
    requires
        old(screen)@.len() == SCREEN_SIZE,
        memory@.len() == MEMORY_SIZE,
    ensures
        final(screen)@ == drawn(old(screen)@, memory@, i, vx, vy, n as int),
        hit == collides(old(screen)@, memory@, i, vx, vy, n as int),
{
    let mut hit = false;
    let mut cell: usize = 0;
    while cell < SCREEN_SIZE
        invariant
            0 <= cell <= SCREEN_SIZE,
            screen@.len() == SCREEN_SIZE,
            memory@.len() == MEMORY_SIZE,
            forall|j: int|
                0 <= j < cell ==> screen@[j] == (old(screen)@[j] != sprite_covers(
                    memory@,
                    i,
                    vx,
                    vy,
                    n as int,
                    j,
                )),
            forall|j: int| cell <= j < SCREEN_SIZE ==> screen@[j] == old(screen)@[j],
            hit == exists|j: int|
                0 <= j < cell && old(screen)@[j] && sprite_covers(memory@, i, vx, vy, n as int, j),
        decreases SCREEN_SIZE - cell,
    {
        let c = (cell % SCREEN_WIDTH + SCREEN_WIDTH - (vx as usize) % SCREEN_WIDTH) % SCREEN_WIDTH;
        let r = (cell / SCREEN_WIDTH + SCREEN_HEIGHT - (vy as usize) % SCREEN_HEIGHT) % SCREEN_HEIGHT;
        let ghost covers = sprite_covers(memory@, i, vx, vy, n as int, cell as int);
        if r < n && c < 8 {
            let row = memory[(i as usize + r) % MEMORY_SIZE];
            if (row >> ((7 - c) as u8)) & 1u8 == 1u8 {
                let was = screen[cell];
                if was {
                    hit = true;
                }
                screen[cell] = !was;
            }
        }
        proof {
            if old(screen)@[cell as int] && covers {
                assert(hit);
            }
        }
        cell += 1;
    }
    proof {
        assert(screen@ =~= drawn(old(screen)@, memory@, i, vx, vy, n as int));
    }
    hit
}

impl Chip8 {
    pub open spec fn wf(&self) -> bool {
        self@.wf()
    }

    /// A machine with zeroed state, the font loaded and `pc` at the program start.
    pub fn new() -> (r: Chip8)
        ensures
            r.wf(),
            r@ == MachineView::initial(),
    {
        let mut chip8 = Chip8 {
            memory: vec![0u8; MEMORY_SIZE],
            registers: vec![0u8; REGISTER_COUNT],
            index_register: 0,
            program_counter: PROGRAM_START_ADDRESS as u16,
            screen: vec![false; SCREEN_SIZE],
            delay_timer: 0,
            sound_timer: 0,
            stack: vec![0u16; STACK_SIZE],
            stack_pointer: 0,
            keys: vec![false; KEY_COUNT],
            waiting_key: None,
            last_unknown: None,
        };
        chip8.load_fonts();
        proof {
            let init = MachineView::initial();
            assert(chip8.registers@ =~= init.registers);
            assert(chip8.screen@ =~= init.screen);
            assert(chip8.stack@ =~= init.stack);
            assert(chip8.keys@ =~= init.keys);
            assert(chip8.memory@ =~= init.memory);
        }
        chip8
    }

    /// Writes the built-in glyphs into the font region; nothing else changes.
    pub fn load_fonts(&mut self)
        requires
            old(self).wf(),
        ensures
            final(self)@ == (MachineView { memory: with_font(old(self)@.memory), ..old(self)@ }),
    {
        let font = fontset();
        let mut i: usize = 0;
        while i < FONTSET_SIZE
            invariant
                0 <= i <= FONTSET_SIZE,
                font@ == font_seq(),
                self@ == (MachineView { memory: self@.memory, ..old(self)@ }),
                self.memory@.len() == 4096,
                forall|a: int|
                    0 <= a < 4096 ==> self.memory@[a] == if 0x50 <= a < 0x50 + i {
                        font_seq()[a - 0x50]
                    } else {
                        old(self).memory@[a]
                    },
            decreases FONTSET_SIZE - i,
        {
            self.memory[FONTSET_START_ADDRESS + i] = font[i];
            i += 1;
        }
        proof {
            assert(self.memory@ =~= with_font(old(self).memory@));
        }
    }

    /// Copies `program` to memory from address 0x200 on. A program longer
    /// than 3584 bytes does not fit: the call fails and changes nothing.
    pub fn load_program(&mut self, program: &[u8]) -> (r: Result<(), LoadError>)
        requires
            old(self).wf(),
        ensures
            r is Ok <==> program@.len() <= MAX_PROGRAM_SIZE,
            r is Err ==> r == Err::<(), LoadError>(LoadError::TooLarge) && final(self)@ == old(self)@,
            r is Ok ==> final(self)@ == (MachineView {
                memory: with_program(old(self)@.memory, program@),
                ..old(self)@
            }),
    {
        if program.len() > MAX_PROGRAM_SIZE {
            return Err(LoadError::TooLarge);
        }
        let mut i: usize = 0;
        while i < program.len()
            invariant
                0 <= i <= program@.len() <= MAX_PROGRAM_SIZE,
                self@ == (MachineView { memory: self@.memory, ..old(self)@ }),
                self.memory@.len() == 4096,
                forall|a: int|
                    0 <= a < 4096 ==> self.memory@[a] == if 0x200 <= a < 0x200 + i {
                        program@[a - 0x200]
                    } else {
                        old(self).memory@[a]
                    },
            decreases program@.len() - i,
        {
            self.memory[PROGRAM_START_ADDRESS + i] = program[i];
            i += 1;
        }
        proof {
            assert(self.memory@ =~= with_program(old(self).memory@, program@));
        }
        Ok(())
    }

    // CLS - 00E0
    fn cls(&mut self)
        requires
            old(self).wf(),
        ensures
            final(self)@ == cls_spec(old(self)@),
    {
        self.screen = vec![false; SCREEN_SIZE];
        proof {
            assert(self.screen@ =~= cls_spec(old(self)@).screen);
        }
    }

    // RET - 00EE
    fn ret(&mut self) -> (r: Result<(), ExecError>)
        requires
            old(self).wf(),
        ensures
            match ret_spec(old(self)@) {
                Ok(m) => r == Ok::<(), ExecError>(()) && final(self)@ == m,
                Err(e) => r == Err::<(), ExecError>(e) && final(self)@ == old(self)@,
            },
    {
        if self.stack_pointer == 0 {
            return Err(ExecError::StackUnderflow);
        }
        self.stack_pointer -= 1;
        self.program_counter = self.stack[self.stack_pointer as usize];
        Ok(())
    }

    // JP addr - 1nnn
    fn jp(&mut self, opcode: u16)
        ensures
            final(self)@ == jp_spec(old(self)@, opcode),
    {
        self.program_counter = nnn_field(opcode);
    }

    // CALL addr - 2nnn
    fn call(&mut self, opcode: u16) -> (r: Result<(), ExecError>)
        requires
            old(self).wf(),
        ensures
            match call_spec(old(self)@, opcode) {
                Ok(m) => r == Ok::<(), ExecError>(()) && final(self)@ == m,
                Err(e) => r == Err::<(), ExecError>(e) && final(self)@ == old(self)@,
            },
    {
        if self.stack_pointer as usize == STACK_SIZE {
            return Err(ExecError::StackOverflow);
        }
        self.stack[self.stack_pointer as usize] = self.program_counter;
        self.stack_pointer += 1;
        self.program_counter = nnn_field(opcode);
        Ok(())
    }

    // SE Vx, byte - 3xkk
    fn se_vx_byte(&mut self, opcode: u16)
        requires
            old(self).wf(),
            old(self).program_counter <= 0x1000,
        ensures
            final(self)@ == se_vx_byte_spec(old(self)@, opcode),
    {
        let x = x_field(opcode);
        if self.registers[x] == kk_field(opcode) {
            self.program_counter += 2;
        }
    }

    // SNE Vx, byte - 4xkk
    fn sne_vx_byte(&mut self, opcode: u16)
        requires
            old(self).wf(),
            old(self).program_counter <= 0x1000,
        ensures
            final(self)@ == sne_vx_byte_spec(old(self)@, opcode),
    {
        let x = x_field(opcode);
        if self.registers[x] != kk_field(opcode) {
            self.program_counter += 2;
        }
    }

    // SE Vx, Vy - 5xy0
    fn se_vx_vy(&mut self, opcode: u16)
        requires
            old(self).wf(),
            old(self).program_counter <= 0x1000,
        ensures
            final(self)@ == se_vx_vy_spec(old(self)@, opcode),
    {
        let x = x_field(opcode);
        let y = y_field(opcode);
        if self.registers[x] == self.registers[y] {
            self.program_counter += 2;
        }
    }

    // SNE Vx, Vy - 9xy0
    fn sne_vx_vy(&mut self, opcode: u16)
        requires
            old(self).wf(),
            old(self).program_counter <= 0x1000,
        ensures
            final(self)@ == sne_vx_vy_spec(old(self)@, opcode),
    {
        let x = x_field(opcode);
        let y = y_field(opcode);
        if self.registers[x] != self.registers[y] {
            self.program_counter += 2;
        }
    }

    // LD Vx, byte - 6xkk
    fn ld_vx_byte(&mut self, opcode: u16)
        requires
            old(self).wf(),
        ensures
            final(self)@ == ld_vx_byte_spec(old(self)@, opcode),
    {
        let x = x_field(opcode);
        self.registers[x] = kk_field(opcode);
    }

    // ADD Vx, byte - 7xkk
    fn add_vx_byte(&mut self, opcode: u16)
        requires
            old(self).wf(),
        ensures
            final(self)@ == add_vx_byte_spec(old(self)@, opcode),
    {
        let x = x_field(opcode);
        self.registers[x] = self.registers[x].wrapping_add(kk_field(opcode));
    }

    // LD Vx, Vy - 8xy0
    fn ld_vx_vy(&mut self, opcode: u16)
        requires
            old(self).wf(),
        ensures
            final(self)@ == ld_vx_vy_spec(old(self)@, opcode),
    {
        let x = x_field(opcode);
        let y = y_field(opcode);
        self.registers[x] = self.registers[y];
    }

    // OR Vx, Vy - 8xy1
    fn or_vx_vy(&mut self, opcode: u16)
        requires
            old(self).wf(),
        ensures
            final(self)@ == or_vx_vy_spec(old(self)@, opcode),
    {
        let x = x_field(opcode);
        let y = y_field(opcode);
        self.registers[x] = self.registers[x] | self.registers[y];
    }

    // AND Vx, Vy - 8xy2
    fn and_vx_vy(&mut self, opcode: u16)
        requires
            old(self).wf(),
        ensures
            final(self)@ == and_vx_vy_spec(old(self)@, opcode),
    {
        let x = x_field(opcode);
        let y = y_field(opcode);
        self.registers[x] = self.registers[x] & self.registers[y];
    }

    // XOR Vx, Vy - 8xy3
    fn xor_vx_vy(&mut self, opcode: u16)
        requires
            old(self).wf(),
        ensures
            final(self)@ == xor_vx_vy_spec(old(self)@, opcode),
    {
        let x = x_field(opcode);
        let y = y_field(opcode);
        self.registers[x] = self.registers[x] ^ self.registers[y];
    }

    // ADD Vx, Vy - 8xy4
    fn add_vx_vy(&mut self, opcode: u16)
        requires
            old(self).wf(),
        ensures
            final(self)@ == add_vx_vy_spec(old(self)@, opcode),
    {
        let x = x_field(opcode);
        let y = y_field(opcode);
        let sum = self.registers[x] as u16 + self.registers[y] as u16;
        self.registers[x] = (sum % 256) as u8;
        self.registers[FLAG_REGISTER] = if sum > 255 { 1 } else { 0 };
    }

    // SUB Vx, Vy - 8xy5
    fn sub_vx_vy(&mut self, opcode: u16)
        requires
            old(self).wf(),
        ensures
            final(self)@ == sub_vx_vy_spec(old(self)@, opcode),
    {
        let x = x_field(opcode);
        let y = y_field(opcode);
        let no_borrow = self.registers[x] >= self.registers[y];
        self.registers[x] = self.registers[x].wrapping_sub(self.registers[y]);
        self.registers[FLAG_REGISTER] = if no_borrow { 1 } else { 0 };
    }

    // SHR Vx - 8xy6
    fn shr_vx(&mut self, opcode: u16)
        requires
            old(self).wf(),
        ensures
            final(self)@ == shr_vx_spec(old(self)@, opcode),
    {
        let x = x_field(opcode);
        let vx = self.registers[x];
        self.registers[FLAG_REGISTER] = vx % 2;
        self.registers[x] = vx / 2;
    }

    // SUBN Vx, Vy - 8xy7
    fn subn_vx_vy(&mut self, opcode: u16)
        requires
            old(self).wf(),
        ensures
            final(self)@ == subn_vx_vy_spec(old(self)@, opcode),
    {
        let x = x_field(opcode);
        let y = y_field(opcode);
        let no_borrow = self.registers[y] >= self.registers[x];
        self.registers[x] = self.registers[y].wrapping_sub(self.registers[x]);
        self.registers[FLAG_REGISTER] = if no_borrow { 1 } else { 0 };
    }

    // SHL Vx - 8xyE
    fn shl_vx(&mut self, opcode: u16)
        requires
            old(self).wf(),
        ensures
            final(self)@ == shl_vx_spec(old(self)@, opcode),
    {
        let x = x_field(opcode);
        let vx = self.registers[x];
        self.registers[FLAG_REGISTER] = vx / 128;
        self.registers[x] = vx.wrapping_mul(2);
    }

    // LD I, addr - Annn
    fn ld_i_addr(&mut self, opcode: u16)
        ensures
            final(self)@ == ld_i_addr_spec(old(self)@, opcode),
    {
        self.index_register = nnn_field(opcode);
    }

    // JP V0, addr - Bnnn
    fn jp_v0_addr(&mut self, opcode: u16)
        requires
            old(self).wf(),
        ensures
            final(self)@ == jp_v0_addr_spec(old(self)@, opcode),
    {
        self.program_counter = nnn_field(opcode) + self.registers[0] as u16;
    }

    // RND Vx, byte - Cxkk
    fn rnd_vx_byte(&mut self, opcode: u16, random: u8)
        requires
            old(self).wf(),
        ensures
            final(self)@ == rnd_vx_byte_spec(old(self)@, opcode, random),
    {
        let x = x_field(opcode);
        self.registers[x] = random & kk_field(opcode);
    }
    // DRW Vx, Vy, nibble - Dxyn
    fn drw(&mut self, opcode: u16)
        requires
            old(self).wf(),
        ensures
            final(self)@ == drw_spec(old(self)@, opcode),
    {
        let vx = self.registers[x_field(opcode)];
        let vy = self.registers[y_field(opcode)];
        let hit = xor_sprite(
            &mut self.screen,
            &self.memory,
            self.index_register,
            vx,
            vy,
            n_field(opcode),
        );
        self.registers[FLAG_REGISTER] = if hit { 1 } else { 0 };
    }

    fn key_is_down(&self, k: u8) -> (r: bool)
        requires
            self.wf(),
        ensures
            r == key_down(self@, k),
    {
        (k as usize) < KEY_COUNT && self.keys[k as usize]
    }

    // SKP Vx - Ex9E
    fn skp_vx(&mut self, opcode: u16)
        requires
            old(self).wf(),
            old(self).program_counter <= 0x1000,
        ensures
            final(self)@ == skp_vx_spec(old(self)@, opcode),
    {
        let vx = self.registers[x_field(opcode)];
        if self.key_is_down(vx) {
            self.program_counter += 2;
        }
    }

    // SKNP Vx - ExA1
    fn sknp_vx(&mut self, opcode: u16)
        requires
            old(self).wf(),
            old(self).program_counter <= 0x1000,
        ensures
            final(self)@ == sknp_vx_spec(old(self)@, opcode),
    {
        let vx = self.registers[x_field(opcode)];
        if !self.key_is_down(vx) {
            self.program_counter += 2;
        }
    }

    // LD Vx, DT - Fx07
    fn ld_vx_dt(&mut self, opcode: u16)
        requires
            old(self).wf(),
        ensures
            final(self)@ == ld_vx_dt_spec(old(self)@, opcode),
    {
        let x = x_field(opcode);
        self.registers[x] = self.delay_timer;
    }

    // LD Vx, K - Fx0A
    fn ld_vx_key(&mut self, opcode: u16)
        ensures
            final(self)@ == ld_vx_key_spec(old(self)@, opcode),
    {
        self.waiting_key = Some(x_field(opcode) as u8);
    }

    // LD DT, Vx - Fx15
    fn ld_dt_vx(&mut self, opcode: u16)
        requires
            old(self).wf(),
        ensures
            final(self)@ == ld_dt_vx_spec(old(self)@, opcode),
    {
        self.delay_timer = self.registers[x_field(opcode)];
    }

    // LD ST, Vx - Fx18
    fn ld_st_vx(&mut self, opcode: u16)
        requires
            old(self).wf(),
        ensures
            final(self)@ == ld_st_vx_spec(old(self)@, opcode),
    {
        self.sound_timer = self.registers[x_field(opcode)];
    }

    // ADD I, Vx - Fx1E
    fn add_i_vx(&mut self, opcode: u16)
        requires
            old(self).wf(),
        ensures
            final(self)@ == add_i_vx_spec(old(self)@, opcode),
    {
        let vx = self.registers[x_field(opcode)];
        self.index_register = self.index_register.wrapping_add(vx as u16);
    }

    // LD F, Vx - Fx29
    fn ld_f_vx(&mut self, opcode: u16)
        requires
            old(self).wf(),
        ensures
            final(self)@ == ld_f_vx_spec(old(self)@, opcode),
    {
        let vx = self.registers[x_field(opcode)];
        self.index_register = FONTSET_START_ADDRESS as u16 + 5 * (vx as u16 % 16);
    }

    // LD B, Vx - Fx33
    fn ld_b_vx(&mut self, opcode: u16)
        requires
            old(self).wf(),
        ensures
            final(self)@ == ld_b_vx_spec(old(self)@, opcode),
    {
        let vx = self.registers[x_field(opcode)];
        let i = self.index_register as usize;
        self.memory[i % MEMORY_SIZE] = vx / 100;
        self.memory[(i + 1) % MEMORY_SIZE] = (vx / 10) % 10;
        self.memory[(i + 2) % MEMORY_SIZE] = vx % 10;
    }

    // LD [I], Vx - Fx55
    fn store_regs(&mut self, opcode: u16)
        requires
            old(self).wf(),
        ensures
            final(self)@ == store_regs_spec(old(self)@, opcode),
    {
        let x = x_field(opcode);
        let i = self.index_register;
        let mut k: usize = 0;
        while k <= x
            invariant
                0 <= k <= x + 1,
                x == x_of(opcode),
                x < 16,
                i == old(self).index_register,
                self@ == (MachineView { memory: self@.memory, ..old(self)@ }),
                self.memory@.len() == 4096,
                self.registers@.len() == 16,
                forall|a: int|
                    0 <= a < 4096 ==> self.memory@[a] == if offset(i, a) < k {
                        old(self).registers@[offset(i, a)]
                    } else {
                        old(self).memory@[a]
                    },
            decreases x + 1 - k,
        {
            let a = (i as usize + k) % MEMORY_SIZE;
            proof {
                assert forall|b: int| 0 <= b < 4096 implies (offset(i, b) == k) <==> (b == a) by {
                    lemma_offset_addr(i, k as int, b);
                }
            }
            self.memory[a] = self.registers[k];
            k += 1;
        }
        proof {
            assert(self.memory@ =~= store_regs_spec(old(self)@, opcode).memory);
        }
    }

    // LD Vx, [I] - Fx65
    fn load_regs(&mut self, opcode: u16)
        requires
            old(self).wf(),
        ensures
            final(self)@ == load_regs_spec(old(self)@, opcode),
    {
        let x = x_field(opcode);
        let i = self.index_register as usize;
        let mut k: usize = 0;
        while k <= x
            invariant
                0 <= k <= x + 1,
                x == x_of(opcode),
                x < 16,
                i == old(self).index_register,
                self@ == (MachineView { registers: self@.registers, ..old(self)@ }),
                self.registers@.len() == 16,
                self.memory@.len() == 4096,
                forall|j: int|
                    0 <= j < 16 ==> self.registers@[j] == if j < k {
                        old(self).memory@[addr(old(self).index_register, j)]
                    } else {
                        old(self).registers@[j]
                    },
            decreases x + 1 - k,
        {
            self.registers[k] = self.memory[(i + k) % MEMORY_SIZE];
            k += 1;
        }
        proof {
            assert(self.registers@ =~= load_regs_spec(old(self)@, opcode).registers);
        }
    }

    /// Runs one decoded instruction; `pc` already points past it.
    fn execute(&mut self, opcode: u16, random: u8) -> (r: Result<(), ExecError>)
        requires
            old(self).wf(),
            old(self).program_counter <= 0x1000,
        ensures
            match execute_spec(old(self)@, opcode, random) {
                Ok(m) => r == Ok::<(), ExecError>(()) && final(self)@ == m,
                Err(e) => r == Err::<(), ExecError>(e) && final(self)@ == old(self)@,
            },
    {
        proof {
            reveal(execute_spec);
        }
        match decode(opcode) {
            Op::Cls => self.cls(),
            Op::Ret => return self.ret(),
            Op::Jp => self.jp(opcode),
            Op::Call => return self.call(opcode),
            Op::SeVxByte => self.se_vx_byte(opcode),
            Op::SneVxByte => self.sne_vx_byte(opcode),
            Op::SeVxVy => self.se_vx_vy(opcode),
            Op::LdVxByte => self.ld_vx_byte(opcode),
            Op::AddVxByte => self.add_vx_byte(opcode),
            Op::LdVxVy => self.ld_vx_vy(opcode),
            Op::OrVxVy => self.or_vx_vy(opcode),
            Op::AndVxVy => self.and_vx_vy(opcode),
            Op::XorVxVy => self.xor_vx_vy(opcode),
            Op::AddVxVy => self.add_vx_vy(opcode),
            Op::SubVxVy => self.sub_vx_vy(opcode),
            Op::ShrVx => self.shr_vx(opcode),
            Op::SubnVxVy => self.subn_vx_vy(opcode),
            Op::ShlVx => self.shl_vx(opcode),
            Op::SneVxVy => self.sne_vx_vy(opcode),
            Op::LdIAddr => self.ld_i_addr(opcode),
            Op::JpV0Addr => self.jp_v0_addr(opcode),
            Op::RndVxByte => self.rnd_vx_byte(opcode, random),
            Op::Drw => self.drw(opcode),
            Op::SkpVx => self.skp_vx(opcode),
            Op::SknpVx => self.sknp_vx(opcode),
            Op::LdVxDt => self.ld_vx_dt(opcode),
            Op::LdVxKey => self.ld_vx_key(opcode),
            Op::LdDtVx => self.ld_dt_vx(opcode),
            Op::LdStVx => self.ld_st_vx(opcode),
            Op::AddIVx => self.add_i_vx(opcode),
            Op::LdFVx => self.ld_f_vx(opcode),
            Op::LdBVx => self.ld_b_vx(opcode),
            Op::StoreRegs => self.store_regs(opcode),
            Op::LoadRegs => self.load_regs(opcode),
            Op::Unknown => self.last_unknown = Some(opcode),
        }
        Ok(())
    }

    /// One fetch-decode-execute cycle. `random` is the byte that `Cxkk`
    /// masks; the caller draws it. While the machine waits for a key this
    /// changes nothing. A fatal error leaves the machine as it was.
    pub fn step(&mut self, random: u8) -> (r: Result<(), ExecError>)
        requires
            old(self).wf(),
        ensures
            final(self).wf(),
            (r, final(self)@) == step_spec(old(self)@, random),
    {
        if self.waiting_key.is_some() {
            return Ok(());
        }
        let pc = self.program_counter;
        if (pc as usize) < PROGRAM_START_ADDRESS || pc > LAST_INSTRUCTION_ADDRESS {
            return Err(ExecError::PcOutOfRange);
        }
        let opcode = self.memory[pc as usize] as u16 * 256 + self.memory[pc as usize + 1] as u16;
        self.program_counter = pc + 2;
        let r = self.execute(opcode, random);
        if r.is_err() {
            self.program_counter = pc;
        }
        proof {
            lemma_step_wf(old(self)@, random);
        }
        r
    }

    /// Records a key going down or up. A press while an `Fx0A` waits puts
    /// the key's number in its register and ends the wait.
    pub fn set_key(&mut self, key: u8, down: bool)
        requires
            old(self).wf(),
            key < 16,
        ensures
            final(self).wf(),
            final(self)@ == set_key_spec(old(self)@, key, down),
    {
        self.keys[key as usize] = down;
        if down {
            if let Some(x) = self.waiting_key {
                self.registers[x as usize] = key;
                self.waiting_key = None;
            }
        }
    }

    /// One 60 Hz tick: each nonzero timer goes down by one.
    pub fn tick_timers(&mut self)
        requires
            old(self).wf(),
        ensures
            final(self).wf(),
            final(self)@ == tick_spec(old(self)@),
    {
        if self.delay_timer > 0 {
            self.delay_timer -= 1;
        }
        if self.sound_timer > 0 {
            self.sound_timer -= 1;
        }
    }

    /// The 64x32 display, row by row; `true` is a lit pixel.
    pub fn display_snapshot(&self) -> (r: Vec<bool>)
        requires
            self.wf(),
        ensures
            r@ == self@.screen,
    {
        self.screen.clone()
    }

    /// Whether the sound timer is running.
    pub fn is_sound_active(&self) -> (r: bool)
        ensures
            r == (self.sound_timer > 0),
    {
        self.sound_timer > 0
    }

    /// Whether the machine is held by `Fx0A` until a key is pressed.
    pub fn is_waiting_for_key(&self) -> (r: bool)
        ensures
            r == self@.waiting is Some,
    {
        self.waiting_key.is_some()
    }
}

/// Every cycle keeps the machine well formed.
pub proof fn lemma_step_wf(m: MachineView, random: u8)
    requires
        m.wf(),
    ensures
        step_spec(m, random).1.wf(),
{
    lemma_execute_wf(MachineView { pc: (m.pc + 2) as u16, ..m }, fetch_spec(m), random);
}

/// Every instruction keeps the machine well formed.
pub proof fn lemma_execute_wf(m: MachineView, op: u16, random: u8)
    requires
        m.wf(),
    ensures
        execute_spec(m, op, random) matches Ok(m2) ==> m2.wf(),
{
    reveal(execute_spec);
}

} // verus!
