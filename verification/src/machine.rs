//! The ghost model of the machine: every piece of state that an instruction
//! can read or write, as plain mathematical values.

use vstd::prelude::*;
use crate::font::font_table;

verus! {

/// Bytes of addressable memory.
pub const MEMORY_SIZE: usize = 4096;

/// Where programs are loaded and where execution starts.
pub const PROGRAM_START: u16 = 0x200;

/// The largest program image that fits between the load address and the end
/// of memory.
pub const PROGRAM_CAPACITY: usize = 3584;

/// Framebuffer columns.
pub const SCREEN_WIDTH: usize = 64;

/// Framebuffer rows.
pub const SCREEN_HEIGHT: usize = 32;

/// Framebuffer cells, one byte per pixel.
pub const SCREEN_CELLS: usize = 2048;

/// Return addresses that the call stack holds.
pub const STACK_DEPTH: u16 = 16;

/// Keys on the pad.
pub const KEY_COUNT: usize = 16;

/// Cycles per tick of the 60 Hz timers.
pub const TIMER_DIVISOR: u8 = 5;

/// The highest value that the program counter takes: the highest address
/// plus the highest register value, after `BNNN`.
pub const PC_LIMIT: u16 = 0x10FE;

/// The whole state of the machine between two cycles.
#[verifier::ext_equal]
pub struct Machine {
    /// Main memory, `MEMORY_SIZE` bytes.
    pub memory: Seq<u8>,
    /// The general registers `V0` to `VF`.
    pub v: Seq<u8>,
    /// The address register `I`.
    pub i: u16,
    /// The program counter.
    pub pc: u16,
    /// The framebuffer, row after row, one cell per pixel: 1 is lit, 0 is dark.
    pub gfx: Seq<u8>,
    /// The delay timer.
    pub delay_timer: u8,
    /// The sound timer; a tone sounds while it is not zero.
    pub sound_timer: u8,
    /// The call stack; the slots below `sp` hold return addresses.
    pub stack: Seq<u16>,
    /// The number of return addresses on the stack.
    pub sp: u16,
    /// Which keys are held down.
    pub keys: Seq<bool>,
    /// Whether the last cycle drew to the framebuffer.
    pub draw_flag: bool,
    /// The number of cycles since the last timer tick.
    pub timer_tick: u8,
}

/// A condition that stops the machine for good.
#[derive(Clone, Copy, Debug, PartialEq, Eq, Structural)]
pub enum Fault {
    /// The instruction word matches no instruction.
    UnknownOpcode { opcode: u16 },
    /// A return with nothing on the call stack.
    StackUnderflow,
    /// A call with the call stack already full.
    StackOverflow,
    /// A fetch, a sprite read, or a store or load through `I` that leaves memory.
    AddressOutOfRange,
    /// A key test on a register that holds no key number.
    KeyOutOfRange,
}

/// `n` zero bytes.
pub open spec fn zeros(n: nat) -> Seq<u8> {
    Seq::new(n, |k: int| 0u8)
}

impl Machine {
    /// What every reachable state satisfies.
    pub open spec fn wf(self) -> bool {
        &&& self.memory.len() == MEMORY_SIZE
        &&& self.v.len() == 16
        &&& self.gfx.len() == SCREEN_CELLS
        &&& self.stack.len() == STACK_DEPTH
        &&& self.keys.len() == KEY_COUNT
        &&& self.pc <= PC_LIMIT
        &&& self.sp <= STACK_DEPTH
        &&& self.timer_tick < TIMER_DIVISOR
        &&& forall|k: int| 0 <= k < SCREEN_CELLS ==> #[trigger] self.gfx[k] <= 1
        &&& forall|k: int| 0 <= k < STACK_DEPTH ==> #[trigger] self.stack[k] + 1 < MEMORY_SIZE
    }

    /// The state of a machine that was just switched on: the glyphs at the
    /// bottom of memory, the program counter at the load address, everything
    /// else zero.
    pub open spec fn power_on() -> Machine {
        Machine {
            memory: font_table() + zeros(4016),
            v: zeros(16),
            i: 0,
            pc: PROGRAM_START,
            gfx: zeros(2048),
            delay_timer: 0,
            sound_timer: 0,
            stack: Seq::new(16, |k: int| 0u16),
            sp: 0,
            keys: Seq::new(16, |k: int| false),
            draw_flag: false,
            timer_tick: 0,
        }
    }

    /// The state with register `x` set to `value`.
    pub open spec fn set_v(self, x: int, value: u8) -> Machine {
        Machine { v: self.v.update(x, value), ..self }
    }

    /// The state with the program counter moved forward by `by` bytes.
    pub open spec fn advance(self, by: int) -> Machine {
        Machine { pc: (self.pc + by) as u16, ..self }
    }

    /// The state after a program image was copied to the load address.
    pub open spec fn load(self, program: Seq<u8>) -> Machine {
        Machine {
            memory: Seq::new(
                self.memory.len(),
                |a: int|
                    if PROGRAM_START <= a < PROGRAM_START + program.len() {
                        program[a - PROGRAM_START]
                    } else {
                        self.memory[a]
                    },
            ),
            ..self
        }
    }
}

/// A machine that was just switched on is well formed.
pub proof fn power_on_wf()
    ensures
        Machine::power_on().wf(),
{
}

} // verus!
