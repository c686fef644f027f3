use vstd::prelude::*;

use crate::chip8::{
    collides, drawn, drw_spec, execute_spec, fetch_spec, fetchable, set_key_spec, sprite_covers,
    step_spec, sub_vx_vy_spec, with_program, ExecError, MachineView,
};
use crate::opcode::{decode_spec, n_of, nnn_of, x_of, y_of, Op};

verus! {

/// `8xy4`: `VF` ends as 1 exactly when `Vx + Vy` exceeds 255, else 0, and
/// (when `x` is not the flag register itself) `Vx` ends as the sum modulo 256.
pub proof fn add_carry_law(m: MachineView, op: u16, random: u8)
    requires
        m.wf(),
        decode_spec(op) == Op::AddVxVy,
    ensures
        execute_spec(m, op, random) matches Ok(r) && {
            &&& r.registers[15] == (if m.vx(op) + m.vy(op) > 255 { 1u8 } else { 0u8 })
            &&& x_of(op) != 15 ==> r.registers[x_of(op)] == (m.vx(op) + m.vy(op)) % 256
        },
{
    reveal(execute_spec);
}

/// `8xy5`: `VF` ends as 1 exactly when `Vx >= Vy` before the operation, else
/// 0, and (when `x` is not the flag register) `Vx` ends as `Vx - Vy` modulo 256.
pub proof fn sub_borrow_law(m: MachineView, op: u16, random: u8)
    requires
        m.wf(),
        decode_spec(op) == Op::SubVxVy,
    ensures
        execute_spec(m, op, random) matches Ok(r) && {
            &&& r.registers[15] == (if m.vx(op) >= m.vy(op) { 1u8 } else { 0u8 })
            &&& x_of(op) != 15 ==> r.registers[x_of(op)] == (m.vx(op) - m.vy(op)) % 256
        },
{
    lemma_wrapped_difference(m.vx(op) as int, m.vy(op) as int);
    reveal(execute_spec);
    assert(execute_spec(m, op, random) == Ok::<MachineView, ExecError>(sub_vx_vy_spec(m, op)));
}

proof fn lemma_wrapped_difference(a: int, b: int)
    requires
        0 <= a < 256,
        0 <= b < 256,
    ensures
        (a - b + 256) % 256 == (a - b) % 256,
{
}

/// `00E0` leaves every pixel off, and a second `00E0` changes nothing more.
pub proof fn clear_law(m: MachineView, random: u8)
    requires
        m.wf(),
    ensures
        execute_spec(m, 0x00E0, random) matches Ok(r) && {
            &&& forall|j: int| 0 <= j < 2048 ==> !r.screen[j]
            &&& execute_spec(r, 0x00E0, random) == Ok::<MachineView, ExecError>(r)
        },
{
    reveal(execute_spec);
    assert(decode_spec(0x00E0) == Op::Cls);
    let r = execute_spec(m, 0x00E0, random)->Ok_0;
    assert(r.screen =~= Seq::new(2048, |i: int| false));
}

/// A `2nnn` whose target holds `00EE`, run as two cycles, comes back to the
/// instruction after the `2nnn` with the stack depth it started with; only
/// the unused stack slot it wrote may differ.
pub proof fn call_return_law(m: MachineView, r1: u8, r2: u8)
    requires
        m.wf(),
        m.waiting is None,
        fetchable(m.pc),
        decode_spec(fetch_spec(m)) == Op::Call,
        m.sp < 16,
        fetchable(nnn_of(fetch_spec(m)) as u16),
        m.memory[nnn_of(fetch_spec(m))] == 0x00,
        m.memory[nnn_of(fetch_spec(m)) + 1] == 0xEE,
    ensures
        step_spec(m, r1).0 is Ok,
        step_spec(step_spec(m, r1).1, r2).0 is Ok,
        step_spec(step_spec(m, r1).1, r2).1 == (MachineView {
            stack: step_spec(step_spec(m, r1).1, r2).1.stack,
            pc: (m.pc + 2) as u16,
            ..m
        }),
{
    reveal(execute_spec);
    let m1 = step_spec(m, r1).1;
    assert(m1.pc == nnn_of(fetch_spec(m)));
    assert(fetch_spec(m1) == 0x00EE);
    assert(decode_spec(0x00EE) == Op::Ret);
}

/// Loading a program never touches memory below the program start.
pub proof fn load_keeps_low_memory_law(mem: Seq<u8>, prog: Seq<u8>)
    requires
        mem.len() == 4096,
    ensures
        forall|a: int| 0 <= a < 0x200 ==> with_program(mem, prog)[a] == mem[a],
{
}

/// Drawing a sprite twice in the same place restores the display: the second
/// draw turns off exactly the pixels the first one lit, and it reports a
/// collision exactly when the first one lit any.
pub proof fn draw_twice_law(screen: Seq<bool>, mem: Seq<u8>, i: u16, vx: u8, vy: u8, n: int)
    requires
        screen.len() == 2048,
    ensures
        drawn(drawn(screen, mem, i, vx, vy, n), mem, i, vx, vy, n) == screen,
        collides(drawn(screen, mem, i, vx, vy, n), mem, i, vx, vy, n) <==> exists|j: int|
            0 <= j < 2048 && !screen[j] && sprite_covers(mem, i, vx, vy, n, j),
{
    let s1 = drawn(screen, mem, i, vx, vy, n);
    assert(drawn(s1, mem, i, vx, vy, n) =~= screen);
    if collides(s1, mem, i, vx, vy, n) {
        let j = choose|j: int| 0 <= j < 2048 && s1[j] && sprite_covers(mem, i, vx, vy, n, j);
        assert(!screen[j]);
    }
    if exists|j: int| 0 <= j < 2048 && !screen[j] && sprite_covers(mem, i, vx, vy, n, j) {
        let j = choose|j: int| 0 <= j < 2048 && !screen[j] && sprite_covers(mem, i, vx, vy, n, j);
        assert(s1[j]);
    }
}

/// The same law for the `Dxyn` instruction itself, when neither coordinate
/// register is the flag register that the first draw overwrites.
pub proof fn drw_twice_law(m: MachineView, op: u16)
    requires
        m.wf(),
        x_of(op) != 15,
        y_of(op) != 15,
    ensures
        drw_spec(drw_spec(m, op), op).screen == m.screen,
        drw_spec(drw_spec(m, op), op).registers[15] == 1 <==> exists|j: int|
            0 <= j < 2048 && !m.screen[j] && sprite_covers(
                m.memory,
                m.index,
                m.vx(op),
                m.vy(op),
                n_of(op),
                j,
            ),
{
    draw_twice_law(m.screen, m.memory, m.index, m.vx(op), m.vy(op), n_of(op));
}

/// `Fx0A` advances past itself and then holds the machine: every later cycle
/// changes nothing until a key press, which lands in `Vx` and ends the wait.
pub proof fn key_wait_law(m: MachineView, r1: u8, r2: u8, key: u8)
    requires
        m.wf(),
        m.waiting is None,
        fetchable(m.pc),
        decode_spec(fetch_spec(m)) == Op::LdVxKey,
        key < 16,
    ensures
        step_spec(m, r1).0 is Ok,
        step_spec(m, r1).1.pc == m.pc + 2,
        step_spec(m, r1).1.waiting == Some(x_of(fetch_spec(m)) as u8),
        step_spec(step_spec(m, r1).1, r2) == (Ok::<(), ExecError>(()), step_spec(m, r1).1),
        set_key_spec(step_spec(m, r1).1, key, true).registers[x_of(fetch_spec(m))] == key,
        set_key_spec(step_spec(m, r1).1, key, true).waiting is None,
        set_key_spec(step_spec(m, r1).1, key, true).pc == m.pc + 2,
{
    reveal(execute_spec);
}

/// `2nnn` succeeds while the stack holds fewer than 16 return addresses, and
/// at 16 fails with `StackOverflow`, leaving the machine unchanged.
pub proof fn stack_depth_law(m: MachineView, random: u8)
    requires
        m.wf(),
        m.waiting is None,
        fetchable(m.pc),
        decode_spec(fetch_spec(m)) == Op::Call,
    ensures
        m.sp < 16 ==> step_spec(m, random).0 is Ok && step_spec(m, random).1.sp == m.sp + 1,
        m.sp == 16 ==> step_spec(m, random) == (Err::<(), ExecError>(ExecError::StackOverflow), m),
{
    reveal(execute_spec);
}

} // verus!
