use vstd::prelude::*;
use crate::keys::{Key, key_code};
use crate::model::{MachineModel, blank_grid, draw_collides, sprite_hits, period_elapsed};
use crate::opcodes::Opcode;

verus! {

/// Copying the delay timer into a register yields the timer's value,
/// whatever the register held before: setting register `r` to `v` and then
/// copying the delay timer into `r` leaves the timer's value `v2` in `r`,
/// also where the timer was first set to `v2` from register `s`.
pub proof fn lemma_copy_delay_timer(
    m: MachineModel,
    r: u8,
    v: u8,
    s: u8,
    key_down: bool,
    random: u8,
)
    requires
        m.wf(),
        m.waiting_for_key is None,
        r < 16,
        s < 16,
    ensures
        m.executed(Opcode::SetRegister { r, value: v }, key_down, random).executed(
            Opcode::GetDelayTimer { r },
            key_down,
            random,
        ).reg(r) == m.delay_timer,
        m.executed(Opcode::SetDelayTimer { r: s }, key_down, random).executed(
            Opcode::SetRegister { r, value: v },
            key_down,
            random,
        ).executed(Opcode::GetDelayTimer { r }, key_down, random).reg(r) == m.reg(s),
{
}

/// Drawing the same sprite twice at the same place restores the framebuffer,
/// and the second draw reports a collision exactly when the first lit some
/// cell. (The origin registers must not be the flag register, which the
/// first draw overwrites.)
pub proof fn lemma_draw_twice(m: MachineModel, rx: u8, ry: u8, n: u8, key_down: bool, random: u8)
    requires
        m.wf(),
        m.waiting_for_key is None,
        rx < 15,
        ry < 15,
        n < 16,
    ensures
        ({
            let op = Opcode::DrawSprite { rx, ry, n };
            let once = m.executed(op, key_down, random);
            let twice = once.executed(op, key_down, random);
            &&& twice.grid == m.grid
            &&& twice.reg(15) == if exists|i: int|
                0 <= i < m.grid.len() && !m.grid[i] && #[trigger] sprite_hits(
                    m.memory,
                    m.index,
                    m.reg(rx),
                    m.reg(ry),
                    n,
                    i,
                ) {
                1u8
            } else {
                0u8
            }
        }),
{
    let op = Opcode::DrawSprite { rx, ry, n };
    let once = m.executed(op, key_down, random);
    let twice = once.executed(op, key_down, random);
    let ox = m.reg(rx);
    let oy = m.reg(ry);
    assert(once.reg(rx) == ox && once.reg(ry) == oy);
    assert(twice.grid =~= m.grid);
    let lit = exists|i: int|
        0 <= i < m.grid.len() && !m.grid[i] && #[trigger] sprite_hits(
            m.memory,
            m.index,
            ox,
            oy,
            n,
            i,
        );
    if lit {
        let i = choose|i: int|
            0 <= i < m.grid.len() && !m.grid[i] && #[trigger] sprite_hits(
                m.memory,
                m.index,
                ox,
                oy,
                n,
                i,
            );
        assert(once.grid[i] && sprite_hits(once.memory, once.index, ox, oy, n, i));
        assert(draw_collides(once, ox, oy, n));
    }
    if draw_collides(once, ox, oy, n) {
        let i = choose|i: int|
            0 <= i < once.grid.len() && once.grid[i] && #[trigger] sprite_hits(
                once.memory,
                once.index,
                ox,
                oy,
                n,
                i,
            );
        assert(!m.grid[i]);
    }
}

/// Clearing twice leaves the same all-off framebuffer as clearing once.
pub proof fn lemma_clear_twice(m: MachineModel, key_down: bool, random: u8)
    requires
        m.wf(),
        m.waiting_for_key is None,
    ensures
        m.executed(Opcode::Clear, key_down, random).grid == blank_grid(),
        m.executed(Opcode::Clear, key_down, random).executed(Opcode::Clear, key_down, random).grid
            == m.executed(Opcode::Clear, key_down, random).grid,
{
}

/// One host input for a cycle: the milliseconds since the last timer
/// decrement, the keypad's answer, and the random byte.
pub struct TickInput {
    pub elapsed_ms: Option<u128>,
    pub key_down: bool,
    pub random: u8,
}

/// The machine after one cycle for each input in turn.
pub open spec fn run_ticks(m: MachineModel, inputs: Seq<TickInput>) -> MachineModel
    decreases inputs.len(),
{
    if inputs.len() == 0 {
        m
    } else {
        let i = inputs[0];
        run_ticks(m.ticked(i.elapsed_ms, i.key_down, i.random), inputs.drop_first())
    }
}

/// While a key wait is pending, no cycle moves the counter or changes a
/// register, memory, the stack or the framebuffer, and the wait stays.
pub proof fn lemma_wait_blocks(m: MachineModel, inputs: Seq<TickInput>)
    requires
        m.wf(),
        m.waiting_for_key is Some,
    ensures
        run_ticks(m, inputs).pc == m.pc,
        run_ticks(m, inputs).registers == m.registers,
        run_ticks(m, inputs).memory == m.memory,
        run_ticks(m, inputs).stack == m.stack,
        run_ticks(m, inputs).grid == m.grid,
        run_ticks(m, inputs).waiting_for_key == m.waiting_for_key,
    decreases inputs.len(),
{
    if inputs.len() > 0 {
        let i = inputs[0];
        lemma_wait_blocks(m.ticked(i.elapsed_ms, i.key_down, i.random), inputs.drop_first());
    }
}

/// A key press ends a pending wait on register `r`: `r` then holds the
/// key's code and the machine executes again.
pub proof fn lemma_key_press_resumes(m: MachineModel, key: Key, op: Opcode, key_down: bool, random: u8)
    requires
        m.wf(),
        m.waiting_for_key is Some,
    ensures
        m.key_pressed(key).reg(m.waiting_for_key->0) == key_code(key),
        m.key_pressed(key).waiting_for_key is None,
        m.key_pressed(key).wf(),
        m.key_pressed(key).executed(Opcode::Goto { address: 0 }, key_down, random).pc == 0,
{
}

/// Calling a subroutine and returning from it resumes at the instruction
/// after the call, with the call stack as it was.
pub proof fn lemma_call_return(m: MachineModel, address: u16, key_down: bool, random: u8)
    requires
        m.wf(),
        m.waiting_for_key is None,
        address < 4096,
    ensures
        ({
            let back = m.executed(Opcode::CallSubroutine { address }, key_down, random).executed(
                Opcode::Return,
                key_down,
                random,
            );
            &&& back.pc == m.advanced(2)
            &&& back.stack == m.stack
        }),
{
    let called = m.executed(Opcode::CallSubroutine { address }, key_down, random);
    assert(called.stack.drop_last() =~= m.stack);
}

/// The timers after one advance for each elapsed time in turn.
pub open spec fn run_timers(m: MachineModel, elapsed: Seq<Option<u128>>) -> MachineModel
    decreases elapsed.len(),
{
    if elapsed.len() == 0 {
        m
    } else {
        run_timers(m.timers_advanced(elapsed[0]), elapsed.drop_first())
    }
}

/// A delay timer at zero stays at zero however often the timers advance.
pub proof fn lemma_delay_holds_at_zero(m: MachineModel, elapsed: Seq<Option<u128>>)
    requires
        m.delay_timer == 0,
    ensures
        run_timers(m, elapsed).delay_timer == 0,
    decreases elapsed.len(),
{
    if elapsed.len() > 0 {
        lemma_delay_holds_at_zero(m.timers_advanced(elapsed[0]), elapsed.drop_first());
    }
}

/// Each advance that is due takes the delay timer one step toward zero:
/// after as many due advances as its value, it is zero.
pub proof fn lemma_delay_reaches_zero(m: MachineModel, elapsed: Seq<Option<u128>>)
    requires
        elapsed.len() >= m.delay_timer,
        forall|k: int|
            0 <= k < elapsed.len() ==> period_elapsed(#[trigger] elapsed[k]),
    ensures
        run_timers(m, elapsed).delay_timer == 0,
    decreases elapsed.len(),
{
    if elapsed.len() > 0 {
        let rest = elapsed.drop_first();
        assert(period_elapsed(elapsed[0]));
        assert forall|k: int| 0 <= k < rest.len() implies period_elapsed(#[trigger] rest[k]) by {
            assert(rest[k] == elapsed[k + 1]);
        }
        lemma_delay_reaches_zero(m.timers_advanced(elapsed[0]), rest);
    }
}

} // verus!
