//! Laws of the instruction set, proved from the semantics.

use vstd::prelude::*;
use crate::display::{covers, flip, lemma_target_unique, pixel_set, target};
use crate::machine::{Machine, TIMER_DIVISOR};
use crate::opcode::{family, n_of, nn_of, x_of, y_of};
use crate::semantics::{flag, is_lowest_key, key_waiting, lowest_key, Input};

verus! {

/// An instruction that does not fault leaves the machine well formed.
pub proof fn execute_preserves_wf(m: Machine, op: u16, random: u8)
    requires
        m.wf(),
        m.pc + 1 < 4096,
        m.op_fault(op) is None,
    ensures
        m.execute(op, random).wf(),
{
}

/// A cycle that does not fault leaves the machine well formed.
pub proof fn step_preserves_wf(m: Machine, random: u8)
    requires
        m.wf(),
        m.fault() is None,
    ensures
        m.step(random).wf(),
{
    execute_preserves_wf(Machine { draw_flag: false, ..m }, m.fetch(), random);
}

/// Whether `op` moves the program counter in a way of its own: a jump, a
/// call, a return, or a conditional skip.
pub open spec fn steers(op: u16) -> bool {
    let f = family(op);
    ||| f == 0x0 && nn_of(op) != 0xE0
    ||| f == 0x1
    ||| f == 0x2
    ||| f == 0x3
    ||| f == 0x4
    ||| f == 0x5
    ||| f == 0x9
    ||| f == 0xB
    ||| f == 0xE
}

/// Whether `op` is the blocking key read, `FX0A`.
pub open spec fn waits_for_key(op: u16) -> bool {
    family(op) == 0xF && nn_of(op) == 0x0A
}

/// Every instruction that does not steer moves the program counter on by
/// exactly 2; the one exception is the blocking key read, which leaves it in
/// place while it waits.
pub proof fn program_counter_moves_by_two(m: Machine, op: u16, random: u8)
    requires
        m.wf(),
        !steers(op),
    ensures
        m.execute(op, random).pc == if waits_for_key(op) && !key_waiting(m.keys) {
            m.pc as int
        } else {
            m.pc + 2
        },
{
}

/// The four conditional skips move the program counter by 4 where their
/// condition holds and by 2 where it does not: `3XNN` on `VX == NN`, `4XNN`
/// on `VX != NN`, `5XY0` on `VX == VY`, `9XY0` on `VX != VY`. They change
/// nothing else. This holds in every well-formed state.
pub proof fn skips_advance_by_four_or_two(m: Machine, op: u16, random: u8)
    requires
        m.wf(),
    ensures
        family(op) == 0x3 ==> m.execute(op, random) == (Machine {
            pc: (m.pc + if m.v[x_of(op)] == nn_of(op) { 4int } else { 2int }) as u16,
            ..m
        }),
        family(op) == 0x4 ==> m.execute(op, random) == (Machine {
            pc: (m.pc + if m.v[x_of(op)] != nn_of(op) { 4int } else { 2int }) as u16,
            ..m
        }),
        family(op) == 0x5 ==> m.execute(op, random) == (Machine {
            pc: (m.pc + if m.v[x_of(op)] == m.v[y_of(op)] { 4int } else { 2int }) as u16,
            ..m
        }),
        family(op) == 0x9 ==> m.execute(op, random) == (Machine {
            pc: (m.pc + if m.v[x_of(op)] != m.v[y_of(op)] { 4int } else { 2int }) as u16,
            ..m
        }),
        family(op) == 0x3 || family(op) == 0x4 || family(op) == 0x5 || family(op) == 0x9 ==> {
            ||| m.execute(op, random).pc == m.pc + 2
            ||| m.execute(op, random).pc == m.pc + 4
        },
{
}

/// `8XY4`: the flag becomes 1 if and only if the sum of `VX` and `VY`, as
/// they stood before the instruction, exceeds 255. Where `X` is not the flag
/// register, `VX` becomes the low byte of that sum.
pub proof fn add_sets_carry(m: Machine, op: u16, random: u8)
    requires
        m.wf(),
        family(op) == 0x8,
        n_of(op) == 0x4,
    ensures
        m.execute(op, random).v[0xF] == flag(m.v[x_of(op)] + m.v[y_of(op)] > 255),
        x_of(op) != 0xF ==> m.execute(op, random).v[x_of(op)] == (m.v[x_of(op)] + m.v[y_of(
            op,
        )]) % 256,
{
}

/// `8XY5`: the flag becomes 0 if and only if `VY` exceeds `VX`, as they stood
/// before the instruction, that is, if the subtraction borrows. Where `X` is
/// not the flag register, `VX` becomes the difference modulo 256.
pub proof fn sub_clears_flag_on_borrow(m: Machine, op: u16, random: u8)
    requires
        m.wf(),
        family(op) == 0x8,
        n_of(op) == 0x5,
    ensures
        m.execute(op, random).v[0xF] == flag(!(m.v[y_of(op)] > m.v[x_of(op)])),
        x_of(op) != 0xF ==> m.execute(op, random).v[x_of(op)] == (m.v[x_of(op)] - m.v[y_of(
            op,
        )]) % 256,
{
}

/// `8XY7`: the flag becomes 0 if and only if `VX` exceeds `VY`, as they stood
/// before the instruction. Where `X` is not the flag register, `VX` becomes
/// `VY - VX` modulo 256.
pub proof fn reverse_sub_clears_flag_on_borrow(m: Machine, op: u16, random: u8)
    requires
        m.wf(),
        family(op) == 0x8,
        n_of(op) == 0x7,
    ensures
        m.execute(op, random).v[0xF] == flag(!(m.v[x_of(op)] > m.v[y_of(op)])),
        x_of(op) != 0xF ==> m.execute(op, random).v[x_of(op)] == (m.v[y_of(op)] - m.v[x_of(
            op,
        )]) % 256,
{
}

/// `8XY6` and `8XYE`: the flag becomes the bit of `VX` that the shift drops,
/// the lowest for the shift to the right and the highest for the shift to
/// the left. Where `X` is not the flag register, `VX` becomes the shifted
/// byte.
pub proof fn shifts_move_a_bit_to_the_flag(m: Machine, op: u16, random: u8)
    requires
        m.wf(),
        family(op) == 0x8,
        n_of(op) == 0x6 || n_of(op) == 0xE,
    ensures
        m.execute(op, random).v[0xF] == if n_of(op) == 0x6 {
            m.v[x_of(op)] as int % 2
        } else {
            m.v[x_of(op)] as int / 128
        },
        x_of(op) != 0xF ==> m.execute(op, random).v[x_of(op)] == if n_of(op) == 0x6 {
            m.v[x_of(op)] as int / 2
        } else {
            (m.v[x_of(op)] * 2) % 256
        },
{
}

/// In `8XY_`, only the register `VX` and, for the five operations that set
/// it, the flag register change.
pub proof fn alu_leaves_other_registers(m: Machine, op: u16, random: u8, r: int)
    requires
        m.wf(),
        family(op) == 0x8,
        0 <= r < 16,
        r != x_of(op),
        r != 0xF || n_of(op) <= 0x3,
    ensures
        m.execute(op, random).v[r] == m.v[r],
{
}

/// `FX33` writes the decimal digits of `VX` at `I`, `I + 1` and `I + 2`,
/// hundreds first, and no other byte of memory.
pub proof fn bcd_writes_decimal_digits(m: Machine, op: u16, random: u8)
    requires
        m.wf(),
        family(op) == 0xF,
        nn_of(op) == 0x33,
        m.op_fault(op) is None,
    ensures
        ({
            let after = m.execute(op, random).memory;
            let i = m.i as int;
            &&& after[i] < 10 && after[i + 1] < 10 && after[i + 2] < 10
            &&& 100 * after[i] + 10 * after[i + 1] + after[i + 2] == m.v[x_of(op)]
            &&& forall|a: int|
                0 <= a < 4096 && !(i <= a <= i + 2) ==> after[a] == m.memory[a]
        }),
{
    let vx = m.v[x_of(op)];
    assert(vx / 100 < 10 && (vx / 10) % 10 < 10 && vx % 10 < 10 && 100 * (vx / 100) + 10 * ((vx
        / 10) % 10) + vx % 10 == vx) by (bit_vector);
}

/// A redraw is requested after a cycle if and only if the cycle executed a
/// draw instruction.
pub proof fn redraw_follows_draw(m: Machine, random: u8)
    requires
        m.wf(),
        m.fault() is None,
    ensures
        m.step(random).draw_flag <==> family(m.fetch()) == 0xD,
{
}

/// `DXYN` wraps at the edges of the framebuffer. Pixel (`row`, `col`) of the
/// sprite lands in row `(VY + row) % 32` and column `(VX + col) % 64`, which
/// is a cell of the framebuffer wherever the sprite is drawn; that cell is
/// XORed with the pixel.
pub proof fn draw_wraps_at_edges(m: Machine, op: u16, row: int, col: int)
    requires
        m.wf(),
        family(op) == 0xD,
        m.op_fault(op) is None,
        0 <= row < n_of(op),
        0 <= col < 8,
    ensures
        ({
            let vx = m.v[x_of(op)] as int;
            let vy = m.v[y_of(op)] as int;
            let cell = target(vx, vy, row, col);
            &&& 0 <= cell < 2048
            &&& cell / 64 == (vy + row) % 32
            &&& cell % 64 == (vx + col) % 64
            &&& m.draw(op).gfx[cell] == if pixel_set(m.memory[m.i + row], col as u8) {
                flip(m.gfx[cell])
            } else {
                m.gfx[cell]
            }
        }),
{
    let vx = m.v[x_of(op)] as int;
    let vy = m.v[y_of(op)] as int;
    lemma_target_unique(vx, vy, row, col);
}

/// `DXYN` changes only the cells on which a set pixel of the sprite lands.
pub proof fn draw_leaves_the_rest(m: Machine, op: u16, cell: int)
    requires
        m.wf(),
        family(op) == 0xD,
        m.op_fault(op) is None,
        0 <= cell < 2048,
        !covers(m.sprite(op), m.v[x_of(op)] as int, m.v[y_of(op)] as int, cell),
    ensures
        m.draw(op).gfx[cell] == m.gfx[cell],
{
}

/// Whether the sprite of `op`, drawn on `m`, has a set pixel on a cell that
/// is dark.
pub open spec fn lights_a_pixel(m: Machine, op: u16) -> bool {
    exists|k: int|
        0 <= k < 2048 && covers(m.sprite(op), m.v[x_of(op)] as int, m.v[y_of(op)] as int, k)
            && m.gfx[k] == 0
}

/// Drawing a sprite twice at the same position restores the framebuffer.
/// The second draw reports a collision if and only if the first one lit a
/// pixel: always, but for a sprite without a set pixel and one drawn wholly
/// over lit pixels.
///
/// The position is the same where the first draw leaves both coordinate
/// registers as they were: where neither is the flag register, or the flag
/// that the first draw writes is the value that was there.
pub proof fn draw_twice_restores(m: Machine, op: u16)
    requires
        m.wf(),
        family(op) == 0xD,
        m.op_fault(op) is None,
        m.draw(op).v[x_of(op)] == m.v[x_of(op)],
        m.draw(op).v[y_of(op)] == m.v[y_of(op)],
    ensures
        m.draw(op).op_fault(op) is None,
        m.draw(op).draw(op).gfx == m.gfx,
        m.draw(op).draw(op).v[0xF] == flag(lights_a_pixel(m, op)),
{
    let vx = m.v[x_of(op)] as int;
    let vy = m.v[y_of(op)] as int;
    let once = m.draw(op);
    let sprite = m.sprite(op);
    assert(once.sprite(op) == sprite);
    assert(once.draw(op).gfx =~= m.gfx);
    if lights_a_pixel(m, op) {
        let k = choose|k: int| 0 <= k < 2048 && covers(sprite, vx, vy, k) && m.gfx[k] == 0;
        assert(covers(sprite, vx, vy, k) && once.gfx[k] == 1);
    }
}

/// Whether each of `inputs` holds a whole key pad.
pub open spec fn whole_pads(inputs: Seq<Input>) -> bool {
    forall|j: int| 0 <= j < inputs.len() ==> (#[trigger] inputs[j]).keys.len() == 16
}

/// Whether the machine runs through `inputs` without a fault.
pub open spec fn faultless(m: Machine, inputs: Seq<Input>) -> bool {
    forall|n: int| 0 <= n < inputs.len() ==> (#[trigger] m.run(inputs.take(n))).fault() is None
}

/// A run without a fault is one up to its last cycle.
proof fn lemma_faultless_before(m: Machine, inputs: Seq<Input>)
    requires
        inputs.len() > 0,
        faultless(m, inputs),
    ensures
        faultless(m, inputs.drop_last()),
        m.run(inputs.drop_last()).fault() is None,
{
    let earlier = inputs.drop_last();
    assert(earlier == inputs.take(inputs.len() - 1));
    assert forall|n: int| 0 <= n < earlier.len() implies (#[trigger] m.run(
        earlier.take(n),
    )).fault() is None by {
        assert(earlier.take(n) == inputs.take(n));
    }
}

/// A run without a fault leaves the machine well formed.
pub proof fn run_preserves_wf(m: Machine, inputs: Seq<Input>)
    requires
        m.wf(),
        whole_pads(inputs),
        faultless(m, inputs),
    ensures
        m.run(inputs).wf(),
    decreases inputs.len(),
{
    if inputs.len() > 0 {
        lemma_faultless_before(m, inputs);
        run_preserves_wf(m, inputs.drop_last());
        let held = Machine { keys: inputs.last().keys, ..m.run(inputs.drop_last()) };
        assert(held.fetch() == m.run(inputs.drop_last()).fetch());
        step_preserves_wf(held, inputs.last().random);
    }
}

/// While none of the sixteen keys is down, the blocking key read holds the
/// machine in place: after any number of cycles the program
/// counter, the registers, `I`, memory and the stack are what they were, and
/// the next cycle executes the same instruction again.
pub proof fn key_wait_stalls(m: Machine, inputs: Seq<Input>)
    requires
        m.wf(),
        m.pc + 1 < 4096,
        waits_for_key(m.fetch()),
        whole_pads(inputs),
        forall|j: int| 0 <= j < inputs.len() ==> !key_waiting((#[trigger] inputs[j]).keys),
    ensures
        m.run(inputs).wf(),
        m.run(inputs).pc == m.pc,
        m.run(inputs).v == m.v,
        m.run(inputs).i == m.i,
        m.run(inputs).memory == m.memory,
        m.run(inputs).stack == m.stack,
        m.run(inputs).sp == m.sp,
        m.run(inputs).fetch() == m.fetch(),
        m.run(inputs).fault() is None,
    decreases inputs.len(),
{
    if inputs.len() > 0 {
        let earlier = inputs.drop_last();
        key_wait_stalls(m, earlier);
        let held = Machine { keys: inputs.last().keys, ..m.run(earlier) };
        assert(held.fetch() == m.fetch());
        assert(held.step(inputs.last().random) == (Machine { draw_flag: false, ..held }).tick());
    }
}

/// Once a key is down, the blocking key read takes one cycle: the register
/// `VX` receives the number of the lowest key that is down, no other
/// register changes, and the program counter moves on by 2.
pub proof fn key_wait_resumes(m: Machine, input: Input, k: int)
    requires
        m.wf(),
        m.pc + 1 < 4096,
        waits_for_key(m.fetch()),
        input.keys.len() == 16,
        is_lowest_key(input.keys, k),
    ensures
        m.cycle(input).pc == m.pc + 2,
        m.cycle(input).v == m.v.update(x_of(m.fetch()), k as u8),
{
    let held = Machine { keys: input.keys, ..m };
    assert(held.fetch() == m.fetch());
    assert(key_waiting(input.keys));
    assert(is_lowest_key(input.keys, lowest_key(input.keys)));
}

/// Whether `op` is `FX15`, the one instruction that writes the delay timer.
pub open spec fn sets_delay_timer(op: u16) -> bool {
    family(op) == 0xF && nn_of(op) == 0x15
}

/// Whether no cycle of the run through `inputs` executes an instruction that
/// writes the delay timer.
pub open spec fn delay_timer_left_alone(m: Machine, inputs: Seq<Input>) -> bool {
    forall|n: int|
        0 <= n < inputs.len() ==> !sets_delay_timer((#[trigger] m.run(inputs.take(n))).fetch())
}

/// The number of timer ticks that pass within `n` cycles, the first of which
/// comes `count` cycles after a tick. Every fifth cycle ends a tick.
pub open spec fn ticks_within(count: int, n: int) -> int {
    (count + n) / (TIMER_DIVISOR as int)
}

/// A cycle that does not write the delay timer takes one off it if the cycle
/// ends a tick and the timer is not zero, and leaves it alone otherwise.
pub proof fn cycle_keeps_time(m: Machine, input: Input)
    requires
        m.wf(),
        input.keys.len() == 16,
        m.fault() is None,
        !sets_delay_timer(m.fetch()),
    ensures
        m.cycle(input).wf(),
        m.cycle(input).timer_tick == (m.timer_tick + 1) % (TIMER_DIVISOR as int),
        m.cycle(input).delay_timer == if m.timer_tick + 1 == TIMER_DIVISOR && m.delay_timer > 0 {
            m.delay_timer - 1
        } else {
            m.delay_timer as int
        },
{
    let held = Machine { keys: input.keys, ..m };
    assert(held.fetch() == m.fetch());
    step_preserves_wf(held, input.random);
}

/// The quotient by 5 goes up by one exactly where the remainder comes back
/// to zero.
proof fn lemma_quotient_step(a: int)
    requires
        0 <= a,
    ensures
        (a + 1) / 5 == a / 5 + if (a + 1) % 5 == 0 { 1int } else { 0int },
        (a + 1) % 5 == if a % 5 == 4 { 0int } else { a % 5 + 1 },
{
}

/// One more cycle adds a tick if and only if it ends one.
proof fn lemma_one_more_cycle(count: int, n: int)
    requires
        0 <= count < TIMER_DIVISOR,
        0 <= n,
    ensures
        ticks_within(count, n + 1) == ticks_within(count, n) + if (count + n) % (
        TIMER_DIVISOR as int) + 1 == TIMER_DIVISOR {
            1int
        } else {
            0int
        },
        (count + n + 1) % (TIMER_DIVISOR as int) == ((count + n) % (TIMER_DIVISOR as int) + 1) % (
        TIMER_DIVISOR as int),
{
    lemma_quotient_step(count + n);
}

/// A run that leaves the delay timer alone does so up to its last cycle.
proof fn lemma_left_alone_before(m: Machine, inputs: Seq<Input>)
    requires
        inputs.len() > 0,
        delay_timer_left_alone(m, inputs),
    ensures
        delay_timer_left_alone(m, inputs.drop_last()),
        !sets_delay_timer(m.run(inputs.drop_last()).fetch()),
{
    let earlier = inputs.drop_last();
    assert(earlier == inputs.take(inputs.len() - 1));
    assert forall|n: int| 0 <= n < earlier.len() implies !sets_delay_timer(
        (#[trigger] m.run(earlier.take(n))).fetch(),
    ) by {
        assert(earlier.take(n) == inputs.take(n));
    }
}

/// Left alone, the delay timer goes down by one on each timer tick until it
/// is zero, and stays there.
pub proof fn delay_timer_counts_down(m: Machine, inputs: Seq<Input>)
    requires
        m.wf(),
        whole_pads(inputs),
        faultless(m, inputs),
        delay_timer_left_alone(m, inputs),
    ensures
        m.run(inputs).wf(),
        m.run(inputs).timer_tick == (m.timer_tick + inputs.len()) % (TIMER_DIVISOR as int),
        m.run(inputs).delay_timer == if ticks_within(m.timer_tick as int, inputs.len() as int)
            >= m.delay_timer {
            0
        } else {
            m.delay_timer - ticks_within(m.timer_tick as int, inputs.len() as int)
        },
    decreases inputs.len(),
{
    if inputs.len() > 0 {
        let earlier = inputs.drop_last();
        lemma_faultless_before(m, inputs);
        lemma_left_alone_before(m, inputs);
        delay_timer_counts_down(m, earlier);
        cycle_keeps_time(m.run(earlier), inputs.last());
        lemma_one_more_cycle(m.timer_tick as int, earlier.len() as int);
    }
}

/// A delay timer that holds `D` at the start of a tick, and is then left
/// alone, reaches zero after exactly `D` times `TIMER_DIVISOR` cycles: it is
/// not zero before, and stays zero after.
///
/// A tick starts where the cycle counter is zero, as it is in a machine that
/// was just switched on. A timer that holds zero stays there from any count.
pub proof fn delay_timer_runs_out(m: Machine, inputs: Seq<Input>)
    requires
        m.wf(),
        m.timer_tick == 0 || m.delay_timer == 0,
        whole_pads(inputs),
        faultless(m, inputs),
        delay_timer_left_alone(m, inputs),
    ensures
        m.run(inputs).delay_timer == 0 <==> inputs.len() >= m.delay_timer * TIMER_DIVISOR,
{
    delay_timer_counts_down(m, inputs);
}

} // verus!
