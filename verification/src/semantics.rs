//! What each instruction does to the machine, and what one whole cycle does.
//!
//! Every function here is a pure function of the state before. The family
//! functions say what the instruction does on the states on which it does not
//! fault; [`Machine::op_fault`] says which states those are.

use vstd::prelude::*;
use crate::display::{collides, drawn};
use crate::machine::{Fault, Machine, KEY_COUNT, TIMER_DIVISOR, zeros};
use crate::opcode::{family, n_of, nn_of, nnn_of, word, x_of, y_of};

verus! {

/// The low byte of an integer, as 8-bit arithmetic keeps it.
pub open spec fn wrap8(n: int) -> u8 {
    (n % 256) as u8
}

/// The low sixteen bits of an integer, as 16-bit arithmetic keeps them.
pub open spec fn wrap16(n: int) -> u16 {
    (n % 65536) as u16
}

/// Whether one of the sixteen keys is down.
pub open spec fn key_waiting(keys: Seq<bool>) -> bool {
    exists|k: int| 0 <= k < KEY_COUNT && keys[k]
}

/// Whether `k` is the lowest key that is down.
pub open spec fn is_lowest_key(keys: Seq<bool>, k: int) -> bool {
    &&& 0 <= k < KEY_COUNT
    &&& keys[k]
    &&& forall|j: int| 0 <= j < k ==> !keys[j]
}

/// The lowest key that is down, where there is one.
pub open spec fn lowest_key(keys: Seq<bool>) -> int {
    choose|k: int| is_lowest_key(keys, k)
}

/// The flag value for a condition: 1 if it holds, else 0.
pub open spec fn flag(on: bool) -> u8 {
    if on {
        1
    } else {
        0
    }
}

/// The registers after the arithmetic or logic operation `n` on `VX` and
/// `VY`.
///
/// The copy and the three bitwise operations leave the flag register alone.
/// The other five compute both the result and the flag from `VX` and `VY`
/// as they stood before the instruction, whichever registers these are. The
/// result goes to `VX` and the flag is written last: where `X` is the flag
/// register itself, it holds the flag afterwards and the result is lost.
pub open spec fn alu_registers(v: Seq<u8>, x: int, y: int, n: int) -> Seq<u8> {
    if n == 0x0 {
        v.update(x, v[y])
    } else if n == 0x1 {
        v.update(x, v[x] | v[y])
    } else if n == 0x2 {
        v.update(x, v[x] & v[y])
    } else if n == 0x3 {
        v.update(x, v[x] ^ v[y])
    } else if n == 0x4 {
        v.update(x, wrap8(v[x] + v[y])).update(0xF, flag(v[x] + v[y] > 255))
    } else if n == 0x5 {
        v.update(x, wrap8(v[x] - v[y])).update(0xF, flag(v[x] >= v[y]))
    } else if n == 0x6 {
        v.update(x, v[x] / 2).update(0xF, flag(v[x] % 2 == 1))
    } else if n == 0x7 {
        v.update(x, wrap8(v[y] - v[x])).update(0xF, flag(v[y] >= v[x]))
    } else if n == 0xE {
        v.update(x, wrap8(v[x] * 2)).update(0xF, flag(v[x] >= 128))
    } else {
        v
    }
}

/// What the host supplies for one cycle.
pub struct Input {
    /// The keys that are down during the cycle.
    pub keys: Seq<bool>,
    /// The byte that `CXNN` masks.
    pub random: u8,
}

impl Machine {
    /// The instruction word at the program counter.
    pub open spec fn fetch(self) -> u16 {
        word(self.memory[self.pc as int], self.memory[self.pc + 1])
    }

    /// The state with the flag register set to 1 if `on` holds, else to 0.
    pub open spec fn set_flag(self, on: bool) -> Machine {
        self.set_v(0xF, flag(on))
    }

    /// The state after a conditional skip: over the next instruction if `cond`
    /// holds, on to it otherwise.
    pub open spec fn skip_if(self, cond: bool) -> Machine {
        self.advance(
            if cond {
                4
            } else {
                2
            },
        )
    }

    /// `00E0` clears the framebuffer; `00EE` returns from a subroutine to the
    /// instruction after the call.
    pub open spec fn cls_ret(self, op: u16) -> Machine {
        if nn_of(op) == 0xE0 {
            Machine { gfx: zeros(2048), ..self }.advance(2)
        } else {
            let top = self.sp - 1;
            Machine {
                pc: (self.stack[top] + 2) as u16,
                sp: top as u16,
                stack: self.stack.update(top, 0),
                ..self
            }
        }
    }

    /// `1NNN` jumps to `NNN`.
    pub open spec fn jmp(self, op: u16) -> Machine {
        Machine { pc: nnn_of(op), ..self }
    }

    /// `2NNN` pushes the address of this instruction and jumps to `NNN`.
    pub open spec fn call(self, op: u16) -> Machine {
        Machine {
            stack: self.stack.update(self.sp as int, self.pc),
            sp: (self.sp + 1) as u16,
            pc: nnn_of(op),
            ..self
        }
    }

    /// `3XNN` skips the next instruction if `VX` equals `NN`.
    pub open spec fn eb(self, op: u16) -> Machine {
        self.skip_if(self.v[x_of(op)] == nn_of(op))
    }

    /// `4XNN` skips the next instruction if `VX` differs from `NN`.
    pub open spec fn neb(self, op: u16) -> Machine {
        self.skip_if(self.v[x_of(op)] != nn_of(op))
    }

    /// `5XY0` skips the next instruction if `VX` equals `VY`.
    pub open spec fn er(self, op: u16) -> Machine {
        self.skip_if(self.v[x_of(op)] == self.v[y_of(op)])
    }

    /// `6XNN` sets `VX` to `NN`.
    pub open spec fn ld(self, op: u16) -> Machine {
        self.set_v(x_of(op), nn_of(op)).advance(2)
    }

    /// `7XNN` adds `NN` to `VX`, wrapping, and leaves the flag alone.
    pub open spec fn addb(self, op: u16) -> Machine {
        self.set_v(x_of(op), wrap8(self.v[x_of(op)] + nn_of(op))).advance(2)
    }

    /// `8XY_`: register-to-register arithmetic and logic, on the registers
    /// alone.
    pub open spec fn alu(self, op: u16) -> Machine {
        Machine { v: alu_registers(self.v, x_of(op), y_of(op), n_of(op)), ..self }.advance(2)
    }

    /// `9XY0` skips the next instruction if `VX` differs from `VY`.
    pub open spec fn ner(self, op: u16) -> Machine {
        self.skip_if(self.v[x_of(op)] != self.v[y_of(op)])
    }

    /// `ANNN` sets `I` to `NNN`.
    pub open spec fn si(self, op: u16) -> Machine {
        Machine { i: nnn_of(op), ..self }.advance(2)
    }

    /// `BNNN` jumps to `NNN` plus `V0`.
    pub open spec fn jmpo(self, op: u16) -> Machine {
        Machine { pc: (nnn_of(op) + self.v[0]) as u16, ..self }
    }

    /// `CXNN` sets `VX` to `NN` masked with a random byte.
    pub open spec fn rng(self, op: u16, random: u8) -> Machine {
        self.set_v(x_of(op), nn_of(op) & random).advance(2)
    }

    /// The `N` bytes at `I`: the sprite that `DXYN` draws.
    pub open spec fn sprite(self, op: u16) -> Seq<u8> {
        Seq::new(n_of(op) as nat, |row: int| self.memory[self.i + row])
    }

    /// `DXYN` draws the sprite at (`VX`, `VY`), wrapping at the edges, sets
    /// the flag to 1 if a lit pixel went dark and to 0 if none did, and asks
    /// for a redraw.
    pub open spec fn draw(self, op: u16) -> Machine {
        let vx = self.v[x_of(op)] as int;
        let vy = self.v[y_of(op)] as int;
        let sprite = self.sprite(op);
        Machine {
            gfx: drawn(self.gfx, sprite, vx, vy),
            draw_flag: true,
            ..self
        }.set_flag(collides(self.gfx, sprite, vx, vy)).advance(2)
    }

    /// `EX9E` skips the next instruction if the key numbered `VX` is down,
    /// `EXA1` if it is up.
    pub open spec fn key(self, op: u16) -> Machine {
        let pressed = self.keys[self.v[x_of(op)] as int];
        if nn_of(op) == 0x9E {
            self.skip_if(pressed)
        } else {
            self.skip_if(!pressed)
        }
    }

    /// The state with `V0` to `VX` stored in memory from `I` on.
    pub open spec fn store_registers(self, x: int) -> Machine {
        Machine {
            memory: Seq::new(
                self.memory.len(),
                |a: int|
                    if self.i <= a <= self.i + x {
                        self.v[a - self.i]
                    } else {
                        self.memory[a]
                    },
            ),
            ..self
        }
    }

    /// The state with `V0` to `VX` loaded from memory from `I` on.
    pub open spec fn load_registers(self, x: int) -> Machine {
        Machine {
            v: Seq::new(
                self.v.len(),
                |k: int|
                    if k <= x {
                        self.memory[self.i + k]
                    } else {
                        self.v[k]
                    },
            ),
            ..self
        }
    }

    /// `FX__`: timers, the blocking key read, and memory through `I`.
    ///
    /// `FX0A` leaves the whole state as it is while none of the sixteen keys
    /// is down, so that the next cycle executes it again.
    pub open spec fn ex(self, op: u16) -> Machine {
        let x = x_of(op);
        let nn = nn_of(op);
        let vx = self.v[x];
        let i = self.i as int;
        if nn == 0x07 {
            self.set_v(x, self.delay_timer).advance(2)
        } else if nn == 0x0A {
            if key_waiting(self.keys) {
                self.set_v(x, lowest_key(self.keys) as u8).advance(2)
            } else {
                self
            }
        } else if nn == 0x15 {
            Machine { delay_timer: vx, ..self }.advance(2)
        } else if nn == 0x18 {
            Machine { sound_timer: vx, ..self }.advance(2)
        } else if nn == 0x1E {
            Machine { i: wrap16(i + vx), ..self }.advance(2)
        } else if nn == 0x29 {
            Machine { i: (5 * vx) as u16, ..self }.advance(2)
        } else if nn == 0x33 {
            Machine {
                memory: self.memory.update(i, vx / 100).update(i + 1, (vx / 10) % 10).update(
                    i + 2,
                    vx % 10,
                ),
                ..self
            }.advance(2)
        } else if nn == 0x55 {
            self.store_registers(x).advance(2)
        } else if nn == 0x65 {
            self.load_registers(x).advance(2)
        } else {
            self.advance(2)
        }
    }

    /// What the instruction `op` does to the machine; `random` is used by
    /// `CXNN` alone.
    pub open spec fn execute(self, op: u16, random: u8) -> Machine {
        let f = family(op);
        if f == 0x0 {
            self.cls_ret(op)
        } else if f == 0x1 {
            self.jmp(op)
        } else if f == 0x2 {
            self.call(op)
        } else if f == 0x3 {
            self.eb(op)
        } else if f == 0x4 {
            self.neb(op)
        } else if f == 0x5 {
            self.er(op)
        } else if f == 0x6 {
            self.ld(op)
        } else if f == 0x7 {
            self.addb(op)
        } else if f == 0x8 {
            self.alu(op)
        } else if f == 0x9 {
            self.ner(op)
        } else if f == 0xA {
            self.si(op)
        } else if f == 0xB {
            self.jmpo(op)
        } else if f == 0xC {
            self.rng(op, random)
        } else if f == 0xD {
            self.draw(op)
        } else if f == 0xE {
            self.key(op)
        } else {
            self.ex(op)
        }
    }

    /// The fault, if any, that executing `op` runs into.
    pub open spec fn op_fault(self, op: u16) -> Option<Fault> {
        let f = family(op);
        let x = x_of(op);
        let n = n_of(op);
        let nn = nn_of(op);
        let unknown = Some(Fault::UnknownOpcode { opcode: op });
        if f == 0x0 {
            if nn == 0xE0 {
                None
            } else if nn == 0xEE {
                if self.sp < 1 {
                    Some(Fault::StackUnderflow)
                } else {
                    None
                }
            } else {
                unknown
            }
        } else if f == 0x2 {
            if self.sp >= 16 {
                Some(Fault::StackOverflow)
            } else {
                None
            }
        } else if f == 0x8 {
            if n <= 0x7 || n == 0xE {
                None
            } else {
                unknown
            }
        } else if f == 0xD {
            if n > 0 && self.i + n > 4096 {
                Some(Fault::AddressOutOfRange)
            } else {
                None
            }
        } else if f == 0xE {
            if self.v[x] >= 16 {
                Some(Fault::KeyOutOfRange)
            } else if nn == 0x9E || nn == 0xA1 {
                None
            } else {
                unknown
            }
        } else if f == 0xF {
            if nn == 0x07 || nn == 0x0A || nn == 0x15 || nn == 0x18 || nn == 0x1E || nn == 0x29 {
                None
            } else if nn == 0x33 {
                if self.i + 2 >= 4096 {
                    Some(Fault::AddressOutOfRange)
                } else {
                    None
                }
            } else if nn == 0x55 || nn == 0x65 {
                if self.i + x >= 4096 {
                    Some(Fault::AddressOutOfRange)
                } else {
                    None
                }
            } else {
                unknown
            }
        } else {
            None
        }
    }

    /// The fault, if any, that the next cycle runs into.
    pub open spec fn fault(self) -> Option<Fault> {
        if self.pc + 1 >= 4096 {
            Some(Fault::AddressOutOfRange)
        } else {
            self.op_fault(self.fetch())
        }
    }

    /// The timer bookkeeping at the end of a cycle: the cycle counter moves
    /// on, and where it comes back to zero a tick has passed: a timer that
    /// is not zero goes down by one.
    pub open spec fn tick(self) -> Machine {
        let count = ((self.timer_tick + 1) % (TIMER_DIVISOR as int)) as u8;
        let due = count == 0;
        Machine {
            delay_timer: if due && self.delay_timer > 0 {
                (self.delay_timer - 1) as u8
            } else {
                self.delay_timer
            },
            sound_timer: if due && self.sound_timer > 0 {
                (self.sound_timer - 1) as u8
            } else {
                self.sound_timer
            },
            timer_tick: count,
            ..self
        }
    }

    /// One whole cycle: fetch, drop the redraw request of the cycle before,
    /// execute, then keep the timers.
    pub open spec fn step(self, random: u8) -> Machine {
        Machine { draw_flag: false, ..self }.execute(self.fetch(), random).tick()
    }

    /// One cycle as the host drives it: the key pad is set, then the machine
    /// steps.
    pub open spec fn cycle(self, input: Input) -> Machine {
        Machine { keys: input.keys, ..self }.step(input.random)
    }

    /// The state after one cycle for each of `inputs`, in order.
    pub open spec fn run(self, inputs: Seq<Input>) -> Machine
        decreases inputs.len(),
    {
        if inputs.len() == 0 {
            self
        } else {
            self.run(inputs.drop_last()).cycle(inputs.last())
        }
    }
}

} // verus!
