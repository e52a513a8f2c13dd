//! The executable machine.

use vstd::prelude::*;
use rand::rngs::ThreadRng;
use crate::entropy::gen_range;
use crate::font::{FONT, FONT_SIZE, font_table};
use crate::display::{
    col_at, covers_before, flip, lemma_covering_pixel, lemma_target_unique, row_at,
};
use crate::machine::{Fault, Machine, PROGRAM_CAPACITY, PROGRAM_START, TIMER_DIVISOR};
use crate::semantics::{
    alu_registers, flag, is_lowest_key, key_waiting, lowest_key, wrap16, wrap8,
};
use crate::opcode::{address, family, family_index, join, low_byte, nibble, x_index, y_index};

verus! {

/// A CHIP-8 virtual machine.
pub struct Chip8 {
    memory: [u8; 4096],
    v: [u8; 16],
    i: u16,
    pc: u16,
    gfx: [u8; 2048],
    delay_timer: u8,
    sound_timer: u8,
    stack: [u16; 16],
    sp: u16,
    key: [bool; 16],
    draw_flag: bool,
    rng: ThreadRng,
    timer_tick: u8,
}

impl View for Chip8 {
    type V = Machine;

    closed spec fn view(&self) -> Machine {
        Machine {
            memory: self.memory@,
            v: self.v@,
            i: self.i,
            pc: self.pc,
            gfx: self.gfx@,
            delay_timer: self.delay_timer,
            sound_timer: self.sound_timer,
            stack: self.stack@,
            sp: self.sp,
            keys: self.key@,
            draw_flag: self.draw_flag,
            timer_tick: self.timer_tick,
        }
    }
}

impl Chip8 {
    #[verifier::type_invariant]
    closed spec fn inv(&self) -> bool {
        self@.wf()
    }

    /// A machine that was just switched on.
    pub fn new() -> (vm: Self)
        ensures
            vm@ == Machine::power_on(),
            vm@.wf(),
            vm@.pc == PROGRAM_START,
            vm@.memory.subrange(0, 80) == font_table(),
    {
        let mut memory = [0u8; 4096];
        let mut a: usize = 0;
        while a < FONT_SIZE
            invariant
                a <= FONT_SIZE,
                forall|k: int| 0 <= k < a ==> memory@[k] == FONT@[k],
                forall|k: int| a <= k < 4096 ==> memory@[k] == 0,
            decreases FONT_SIZE - a,
        {
            memory[a] = FONT[a];
            a += 1;
        }
        let vm = Chip8 {
            memory,
            v: [0u8; 16],
            i: 0,
            pc: PROGRAM_START,
            gfx: [0u8; 2048],
            delay_timer: 0,
            sound_timer: 0,
            stack: [0u16; 16],
            sp: 0,
            key: [false; 16],
            draw_flag: false,
            rng: rand::thread_rng(),
            timer_tick: 0,
        };
        vm
    }

    /// The program counter.
    pub fn pc(&self) -> (pc: u16)
        ensures
            pc == self@.pc,
    {
        self.pc
    }

    /// The address register `I`.
    pub fn i(&self) -> (i: u16)
        ensures
            i == self@.i,
    {
        self.i
    }

    /// The general registers, `V0` first.
    pub fn v(&self) -> (v: &[u8])
        ensures
            v@ == self@.v,
    {
        &self.v
    }

    /// Main memory.
    pub fn memory(&self) -> (memory: &[u8])
        ensures
            memory@ == self@.memory,
    {
        &self.memory
    }

    /// The number of return addresses on the call stack.
    pub fn sp(&self) -> (sp: u16)
        ensures
            sp == self@.sp,
    {
        self.sp
    }

    /// The call stack; the slots below `sp` hold return addresses.
    pub fn stack(&self) -> (stack: &[u16])
        ensures
            stack@ == self@.stack,
    {
        &self.stack
    }

    /// The delay timer.
    pub fn delay_timer(&self) -> (ticks: u8)
        ensures
            ticks == self@.delay_timer,
    {
        self.delay_timer
    }

    /// The sound timer.
    pub fn sound_timer(&self) -> (ticks: u8)
        ensures
            ticks == self@.sound_timer,
    {
        self.sound_timer
    }

    /// Whether the last cycle drew to the framebuffer.
    pub fn draw_flag(&self) -> (flag: bool)
        ensures
            flag == self@.draw_flag,
    {
        self.draw_flag
    }

    /// The framebuffer: 2048 cells, row after row, 1 for a lit pixel.
    pub fn gfx(&self) -> (cells: &[u8])
        ensures
            cells@ == self@.gfx,
    {
        &self.gfx
    }

    /// Whether a tone sounds: whether the sound timer is not zero.
    pub fn sound_flag(&self) -> (on: bool)
        ensures
            on == (self@.sound_timer > 0),
    {
        self.sound_timer > 0
    }

    /// Releases every key.
    pub fn clear_keys(&mut self)
        ensures
            final(self)@ == (Machine { keys: Seq::new(16, |k: int| false), ..old(self)@ }),
            final(self)@.wf(),
    {
        proof {
            use_type_invariant(&*self);
        }
        self.key = [false; 16];
    }

    /// Holds key `key` down.
    pub fn press_key(&mut self, key: usize)
        requires
            key < 16,
        ensures
            final(self)@ == (Machine { keys: old(self)@.keys.update(key as int, true), ..old(self)@ }),
            final(self)@.wf(),
    {
        proof {
            use_type_invariant(&*self);
        }
        self.key[key] = true;
    }

    /// Copies a program image into memory at the load address, `0x200`.
    pub fn load_game(&mut self, program: &[u8])
        requires
            program@.len() <= PROGRAM_CAPACITY,
        ensures
            final(self)@ == old(self)@.load(program@),
            final(self)@.wf(),
    {
        proof {
            use_type_invariant(&*self);
        }
        let ghost before = self@;
        let mut n: usize = 0;
        while n < program.len()
            invariant
                n <= program@.len() <= PROGRAM_CAPACITY,
                before.wf(),
                self@ == (Machine { memory: self.memory@, ..before }),
                forall|a: int|
                    0 <= a < 4096 ==> self.memory@[a] == if 0x200 <= a < 0x200 + n {
                        program@[a - 0x200]
                    } else {
                        before.memory[a]
                    },
            decreases program@.len() - n,
        {
            self.memory[0x200 + n] = program[n];
            n += 1;
        }
    }

    /// The instruction word at the program counter.
    fn fetch(&self) -> (opcode: u16)
        requires
            self@.pc + 1 < 4096,
        ensures
            opcode == self@.fetch(),
    {
        proof {
            use_type_invariant(self);
        }
        let pc = self.pc as usize;
        join(self.memory[pc], self.memory[pc + 1])
    }

    /// The fault that the next cycle would run into, or `None` where the
    /// machine can go on.
    pub fn fault(&self) -> (f: Option<Fault>)
        ensures
            f == self@.fault(),
            self@.wf(),
    {
        proof {
            use_type_invariant(self);
        }
        if self.pc >= 4095 {
            return Some(Fault::AddressOutOfRange);
        }
        let opcode = self.fetch();
        let x = x_index(opcode);
        let n = nibble(opcode);
        let nn = low_byte(opcode);
        let i = self.i as usize;
        let unknown = Some(Fault::UnknownOpcode { opcode });
        match family_index(opcode) {
            0x0 => {
                if nn == 0xE0 {
                    None
                } else if nn == 0xEE {
                    if self.sp < 1 {
                        Some(Fault::StackUnderflow)
                    } else {
                        None
                    }
                } else {
                    unknown
                }
            },
            0x2 => {
                if self.sp >= 16 {
                    Some(Fault::StackOverflow)
                } else {
                    None
                }
            },
            0x8 => {
                if n <= 0x7 || n == 0xE {
                    None
                } else {
                    unknown
                }
            },
            0xD => {
                if n > 0 && i + n > 4096 {
                    Some(Fault::AddressOutOfRange)
                } else {
                    None
                }
            },
            0xE => {
                if self.v[x] >= 16 {
                    Some(Fault::KeyOutOfRange)
                } else if nn == 0x9E || nn == 0xA1 {
                    None
                } else {
                    unknown
                }
            },
            0xF => {
                if nn == 0x07 || nn == 0x0A || nn == 0x15 || nn == 0x18 || nn == 0x1E || nn == 0x29 {
                    None
                } else if nn == 0x33 {
                    if i + 2 >= 4096 {
                        Some(Fault::AddressOutOfRange)
                    } else {
                        None
                    }
                } else if nn == 0x55 || nn == 0x65 {
                    if i + x >= 4096 {
                        Some(Fault::AddressOutOfRange)
                    } else {
                        None
                    }
                } else {
                    unknown
                }
            },
            _ => None,
        }
    }

    /// Runs one cycle: fetches the instruction at the program counter, drops
    /// the redraw request of the cycle before, executes the instruction and
    /// keeps the timers. `random` is the byte that `CXNN` masks; no other
    /// instruction looks at it.
    pub fn emulate_cycle_with(&mut self, random: u8)
        requires
            old(self)@.fault() is None,
        ensures
            final(self)@ == old(self)@.step(random),
            final(self)@.wf(),
    {
        proof {
            use_type_invariant(&*self);
        }
        let opcode = self.fetch();
        self.draw_flag = false;
        self.execute(opcode, random);
        self.tick();
        proof {
            use_type_invariant(&*self);
        }
    }

    /// Runs one cycle, drawing the byte for `CXNN` from the random source.
    ///
    /// Which byte that is cannot be said; every other instruction does
    /// exactly what `emulate_cycle_with` does.
    pub fn emulate_cycle(&mut self)
        requires
            old(self)@.fault() is None,
        ensures
            exists|random: u8| final(self)@ == old(self)@.step(random),
            family(old(self)@.fetch()) != 0xC ==> final(self)@ == old(self)@.step(0),
            final(self)@.wf(),
    {
        proof {
            use_type_invariant(&*self);
        }
        let opcode = self.fetch();
        let random: u8 = if family_index(opcode) == 0xC {
            let mut source = self.rng;
            gen_range(&mut source, 0, 256) as u8
        } else {
            0
        };
        self.emulate_cycle_with(random);
    }
}

/// The lowest bit of a byte.
fn lowest_bit(byte: u8) -> (bit: u8)
    ensures
        bit == flag(byte % 2 == 1),
{
    assert(byte & 0x1 == byte % 2) by (bit_vector);
    byte & 0x1
}

/// The highest bit of a byte.
fn highest_bit(byte: u8) -> (bit: u8)
    ensures
        bit == flag(byte >= 128),
{
    assert((byte & 0x80 == 0x80) == (byte >= 128)) by (bit_vector);
    if byte & 0x80 == 0x80 {
        1
    } else {
        0
    }
}

/// A byte shifted right by one bit.
fn halve(byte: u8) -> (half: u8)
    ensures
        half == byte / 2,
{
    assert(byte >> 1 == byte / 2) by (bit_vector);
    byte >> 1
}

/// A byte shifted left by one bit, the highest bit dropped.
fn double(byte: u8) -> (twice: u8)
    ensures
        twice == wrap8(byte * 2),
{
    assert(byte << 1 == (byte * 2) % 256) by (bit_vector);
    byte << 1
}

/// The sum of two bytes, wrapped to a byte.
fn add8(a: u8, b: u8) -> (sum: u8)
    ensures
        sum == wrap8(a + b),
{
    a.wrapping_add(b)
}

/// The difference of two bytes, wrapped to a byte.
fn sub8(a: u8, b: u8) -> (difference: u8)
    ensures
        difference == wrap8(a - b),
{
    a.wrapping_sub(b)
}

/// The sum of two 16-bit words, wrapped to a word.
fn add16(a: u16, b: u16) -> (sum: u16)
    ensures
        sum == wrap16(a + b),
{
    a.wrapping_add(b)
}

/// The three decimal digits of a byte: hundreds, tens, ones.
fn digits(byte: u8) -> (d: (u8, u8, u8))
    ensures
        d.0 == byte / 100,
        d.1 == (byte / 10) % 10,
        d.2 == byte % 10,
{
    (byte / 100, (byte / 10) % 10, (byte % 100) % 10)
}

/// Applies the arithmetic or logic operation `n` of `8XY_` to the registers.
fn operate(v: &mut [u8; 16], x: usize, y: usize, n: usize)
    requires
        x < 16,
        y < 16,
        n <= 0x7 || n == 0xE,
    ensures
        final(v)@ == alu_registers(old(v)@, x as int, y as int, n as int),
{
    let a = v[x];
    let b = v[y];
    match n {
        0x0 => {
            v[x] = b;
        },
        0x1 => {
            v[x] = a | b;
        },
        0x2 => {
            v[x] = a & b;
        },
        0x3 => {
            v[x] = a ^ b;
        },
        0x4 => {
            v[x] = add8(a, b);
            v[0xF] = if b > 0xFF - a { 1 } else { 0 };
        },
        0x5 => {
            v[x] = sub8(a, b);
            v[0xF] = if b > a { 0 } else { 1 };
        },
        0x6 => {
            v[x] = halve(a);
            v[0xF] = lowest_bit(a);
        },
        0x7 => {
            v[x] = sub8(b, a);
            v[0xF] = if a > b { 0 } else { 1 };
        },
        _ => {
            v[x] = double(a);
            v[0xF] = highest_bit(a);
        },
    }
}

impl Chip8 {
    /// Hands the instruction to the handler of its family.
    fn execute(&mut self, opcode: u16, random: u8)
        requires
            old(self)@.pc + 1 < 4096,
            old(self)@.op_fault(opcode) is None,
        ensures
            final(self)@ == old(self)@.execute(opcode, random),
    {
        match family_index(opcode) {
            0x0 => self.cls_ret(opcode),
            0x1 => self.jmp(opcode),
            0x2 => self.call(opcode),
            0x3 => self.eb(opcode),
            0x4 => self.neb(opcode),
            0x5 => self.er(opcode),
            0x6 => self.ld(opcode),
            0x7 => self.addb(opcode),
            0x8 => self.alu(opcode),
            0x9 => self.ner(opcode),
            0xA => self.si(opcode),
            0xB => self.jmpo(opcode),
            0xC => self.rng(opcode, random),
            0xD => self.draw(opcode),
            0xE => self.key(opcode),
            _ => self.ex(opcode),
        }
    }

    /// Keeps the timers at the end of a cycle.
    fn tick(&mut self)
        ensures
            final(self)@ == old(self)@.tick(),
    {
        proof {
            use_type_invariant(&*self);
        }
        self.timer_tick = (self.timer_tick + 1) % TIMER_DIVISOR;
        if self.timer_tick == 0 {
            if self.delay_timer > 0 {
                self.delay_timer -= 1;
            }
            if self.sound_timer > 0 {
                self.sound_timer -= 1;
            }
        }
    }

    /// `00E0` and `00EE`.
    fn cls_ret(&mut self, opcode: u16)
        requires
            old(self)@.pc + 1 < 4096,
            family(opcode) == 0x0,
            old(self)@.op_fault(opcode) is None,
        ensures
            final(self)@ == old(self)@.cls_ret(opcode),
    {
        proof {
            use_type_invariant(&*self);
        }
        if low_byte(opcode) == 0xE0 {
            self.gfx = [0u8; 2048];
            self.pc += 2;
        } else {
            self.sp -= 1;
            let sp = self.sp as usize;
            self.pc = self.stack[sp] + 2;
            self.stack[sp] = 0;
        }
    }

    /// `1NNN`.
    fn jmp(&mut self, opcode: u16)
        ensures
            final(self)@ == old(self)@.jmp(opcode),
    {
        proof {
            use_type_invariant(&*self);
        }
        self.pc = address(opcode);
    }

    /// `2NNN`.
    fn call(&mut self, opcode: u16)
        requires
            old(self)@.pc + 1 < 4096,
            old(self)@.sp < 16,
        ensures
            final(self)@ == old(self)@.call(opcode),
    {
        proof {
            use_type_invariant(&*self);
        }
        self.stack[self.sp as usize] = self.pc;
        self.sp += 1;
        self.pc = address(opcode);
    }

    /// `3XNN`.
    fn eb(&mut self, opcode: u16)
        requires
            old(self)@.pc + 1 < 4096,
        ensures
            final(self)@ == old(self)@.eb(opcode),
    {
        proof {
            use_type_invariant(&*self);
        }
        let x = x_index(opcode);
        let n = low_byte(opcode);
        self.pc += if self.v[x] == n { 4 } else { 2 };
    }

    /// `4XNN`.
    fn neb(&mut self, opcode: u16)
        requires
            old(self)@.pc + 1 < 4096,
        ensures
            final(self)@ == old(self)@.neb(opcode),
    {
        proof {
            use_type_invariant(&*self);
        }
        let x = x_index(opcode);
        let n = low_byte(opcode);
        self.pc += if self.v[x] != n { 4 } else { 2 };
    }

    /// `5XY0`.
    fn er(&mut self, opcode: u16)
        requires
            old(self)@.pc + 1 < 4096,
        ensures
            final(self)@ == old(self)@.er(opcode),
    {
        proof {
            use_type_invariant(&*self);
        }
        let x = x_index(opcode);
        let y = y_index(opcode);
        self.pc += if self.v[x] == self.v[y] { 4 } else { 2 };
    }

    /// `6XNN`.
    fn ld(&mut self, opcode: u16)
        requires
            old(self)@.pc + 1 < 4096,
        ensures
            final(self)@ == old(self)@.ld(opcode),
    {
        proof {
            use_type_invariant(&*self);
        }
        let x = x_index(opcode);
        let n = low_byte(opcode);
        self.v[x] = n;
        self.pc += 2;
    }

    /// `7XNN`.
    fn addb(&mut self, opcode: u16)
        requires
            old(self)@.pc + 1 < 4096,
        ensures
            final(self)@ == old(self)@.addb(opcode),
    {
        proof {
            use_type_invariant(&*self);
        }
        let x = x_index(opcode);
        let n = low_byte(opcode);
        self.v[x] = self.v[x].wrapping_add(n);
        self.pc += 2;
    }

    /// `8XY_`.
    fn alu(&mut self, opcode: u16)
        requires
            old(self)@.pc + 1 < 4096,
            family(opcode) == 0x8,
            old(self)@.op_fault(opcode) is None,
        ensures
            final(self)@ == old(self)@.alu(opcode),
    {
        proof {
            use_type_invariant(&*self);
        }
        let x = x_index(opcode);
        let y = y_index(opcode);
        let mut v = self.v;
        operate(&mut v, x, y, nibble(opcode));
        self.v = v;
        self.pc += 2;
    }

    /// `9XY0`.
    fn ner(&mut self, opcode: u16)
        requires
            old(self)@.pc + 1 < 4096,
        ensures
            final(self)@ == old(self)@.ner(opcode),
    {
        proof {
            use_type_invariant(&*self);
        }
        let x = x_index(opcode);
        let y = y_index(opcode);
        self.pc += if self.v[x] != self.v[y] { 4 } else { 2 };
    }

    /// `ANNN`.
    fn si(&mut self, opcode: u16)
        requires
            old(self)@.pc + 1 < 4096,
        ensures
            final(self)@ == old(self)@.si(opcode),
    {
        proof {
            use_type_invariant(&*self);
        }
        self.i = address(opcode);
        self.pc += 2;
    }

    /// `BNNN`.
    fn jmpo(&mut self, opcode: u16)
        ensures
            final(self)@ == old(self)@.jmpo(opcode),
    {
        proof {
            use_type_invariant(&*self);
        }
        let n = address(opcode);
        self.pc = n + self.v[0] as u16;
    }

    /// `CXNN`, with the random byte already drawn.
    fn rng(&mut self, opcode: u16, random: u8)
        requires
            old(self)@.pc + 1 < 4096,
        ensures
            final(self)@ == old(self)@.rng(opcode, random),
    {
        proof {
            use_type_invariant(&*self);
        }
        let x = x_index(opcode);
        let n = low_byte(opcode);
        self.v[x] = n & random;
        self.pc += 2;
    }

    /// `DXYN`.
    fn draw(&mut self, opcode: u16)
        requires
            old(self)@.pc + 1 < 4096,
            family(opcode) == 0xD,
            old(self)@.op_fault(opcode) is None,
        ensures
            final(self)@ == old(self)@.draw(opcode),
    {
        proof {
            use_type_invariant(&*self);
        }
        let x = x_index(opcode);
        let y = y_index(opcode);
        let height = nibble(opcode);

        let vx = self.v[x] as usize;
        let vy = self.v[y] as usize;
        let i = self.i as usize;
        let ghost before = self@;
        let ghost sprite = before.sprite(opcode);

        self.v[0xF] = 0;
        let mut row: usize = 0;
        while row < height
            invariant
                row <= height < 16,
                height > 0 ==> i + height <= 4096,
                vx < 256,
                vy < 256,
                i == before.i,
                before.wf(),
                sprite == before.sprite(opcode),
                height == sprite.len(),
                self@ == (Machine { gfx: self.gfx@, v: self.v@, ..before }),
                self.v@ == before.v.update(0xF, self.v@[0xF]),
                self.v@[0xF] <= 1,
                forall|k: int|
                    0 <= k < 2048 ==> self.gfx@[k] == if covers_before(
                        sprite,
                        vx as int,
                        vy as int,
                        k,
                        row as int,
                        0,
                    ) {
                        flip(before.gfx[k])
                    } else {
                        before.gfx[k]
                    },
                self.v@[0xF] == 1 <==> exists|k: int|
                    0 <= k < 2048 && covers_before(sprite, vx as int, vy as int, k, row as int, 0)
                        && before.gfx[k] == 1,
            decreases height - row,
        {
            let pixel = self.memory[i + row];
            let mut p: u8 = 0;
            while p < 8
                invariant
                    p <= 8,
                    row < height < 16,
                    vx < 256,
                    vy < 256,
                    before.wf(),
                    height == sprite.len(),
                    pixel == sprite[row as int],
                    self@ == (Machine { gfx: self.gfx@, v: self.v@, ..before }),
                    self.v@ == before.v.update(0xF, self.v@[0xF]),
                    self.v@[0xF] <= 1,
                    forall|k: int|
                        0 <= k < 2048 ==> self.gfx@[k] == if covers_before(
                            sprite,
                            vx as int,
                            vy as int,
                            k,
                            row as int,
                            p as int,
                        ) {
                            flip(before.gfx[k])
                        } else {
                            before.gfx[k]
                        },
                    self.v@[0xF] == 1 <==> exists|k: int|
                        0 <= k < 2048 && covers_before(
                            sprite,
                            vx as int,
                            vy as int,
                            k,
                            row as int,
                            p as int,
                        ) && before.gfx[k] == 1,
                decreases 8 - p,
            {
                let gfx_offset = 64 * ((vy + row) % 32) + (vx + p as usize) % 64;
                proof {
                    lemma_target_unique(vx as int, vy as int, row as int, p as int);
                    assert forall|k: int| 0 <= k < 2048 && k != gfx_offset implies !(row_at(
                        vy as int,
                        k,
                    ) == row && col_at(vx as int, k) == p) by {
                        lemma_covering_pixel(vx as int, vy as int, k);
                    }
                }
                if pixel & (0x80 >> p) != 0 {
                    if self.gfx[gfx_offset] == 1 {
                        self.v[0xF] = 1;
                        self.gfx[gfx_offset] = 0;
                    } else {
                        self.gfx[gfx_offset] = 1;
                    }
                }
                p += 1;
            }
            row += 1;
        }

        self.draw_flag = true;
        self.pc += 2;
    }

    /// `EX9E` and `EXA1`.
    fn key(&mut self, opcode: u16)
        requires
            old(self)@.pc + 1 < 4096,
            family(opcode) == 0xE,
            old(self)@.op_fault(opcode) is None,
        ensures
            final(self)@ == old(self)@.key(opcode),
    {
        proof {
            use_type_invariant(&*self);
        }
        let x = x_index(opcode);
        let pressed = self.key[self.v[x] as usize];
        if low_byte(opcode) == 0x9E {
            self.pc += if pressed { 4 } else { 2 };
        } else {
            self.pc += if !pressed { 4 } else { 2 };
        }
    }

    /// The lowest key that is down, or 16 where none is.
    fn lowest_key_down(&self) -> (k: u8)
        ensures
            k <= 16,
            k < 16 ==> key_waiting(self@.keys) && lowest_key(self@.keys) == k,
            k == 16 ==> !key_waiting(self@.keys),
    {
        let mut k: u8 = 0;
        while k < 16 && !self.key[k as usize]
            invariant
                k <= 16,
                forall|j: int| 0 <= j < k ==> !self.key@[j],
            decreases 16 - k,
        {
            k += 1;
        }
        proof {
            if k < 16 {
                assert(is_lowest_key(self@.keys, k as int));
                assert(is_lowest_key(self@.keys, lowest_key(self@.keys)));
            }
        }
        k
    }

    /// Stores `V0` to `VX` in memory from `I` on.
    fn store_registers(&mut self, x: usize)
        requires
            x < 16,
            old(self)@.i + x < 4096,
        ensures
            final(self)@ == old(self)@.store_registers(x as int),
    {
        proof {
            use_type_invariant(&*self);
        }
        let ghost before = self@;
        let i = self.i as usize;
        let mut offset: usize = 0;
        while offset <= x
            invariant
                offset <= x + 1,
                x < 16,
                i + x < 4096,
                i == before.i,
                before.wf(),
                self@ == (Machine { memory: self.memory@, ..before }),
                forall|a: int|
                    0 <= a < 4096 ==> self.memory@[a] == if i <= a < i + offset {
                        before.v[a - i]
                    } else {
                        before.memory[a]
                    },
            decreases x + 1 - offset,
        {
            self.memory[i + offset] = self.v[offset];
            offset += 1;
        }
    }

    /// Loads `V0` to `VX` from memory from `I` on.
    fn load_registers(&mut self, x: usize)
        requires
            x < 16,
            old(self)@.i + x < 4096,
        ensures
            final(self)@ == old(self)@.load_registers(x as int),
    {
        proof {
            use_type_invariant(&*self);
        }
        let ghost before = self@;
        let i = self.i as usize;
        let mut offset: usize = 0;
        while offset <= x
            invariant
                offset <= x + 1,
                x < 16,
                i + x < 4096,
                i == before.i,
                before.wf(),
                self@ == (Machine { v: self.v@, ..before }),
                forall|k: int|
                    0 <= k < 16 ==> self.v@[k] == if k < offset {
                        before.memory[i + k]
                    } else {
                        before.v[k]
                    },
            decreases x + 1 - offset,
        {
            self.v[offset] = self.memory[i + offset];
            offset += 1;
        }
    }

    /// `FX__`.
    fn ex(&mut self, opcode: u16)
        requires
            old(self)@.pc + 1 < 4096,
            family(opcode) == 0xF,
            old(self)@.op_fault(opcode) is None,
        ensures
            final(self)@ == old(self)@.ex(opcode),
    {
        proof {
            use_type_invariant(&*self);
        }
        let x = x_index(opcode);
        let mut stall = false;
        match low_byte(opcode) {
            0x07 => {
                self.v[x] = self.delay_timer;
            },
            0x0A => {
                let k = self.lowest_key_down();
                if k < 16 {
                    self.v[x] = k;
                } else {
                    stall = true;
                }
            },
            0x15 => {
                self.delay_timer = self.v[x];
            },
            0x18 => {
                self.sound_timer = self.v[x];
            },
            0x1E => {
                self.i = add16(self.i, self.v[x] as u16);
            },
            0x29 => {
                self.i = 5 * (self.v[x] as u16);
            },
            0x33 => {
                let (hundreds, tens, ones) = digits(self.v[x]);
                let i = self.i as usize;
                self.memory[i] = hundreds;
                self.memory[i + 1] = tens;
                self.memory[i + 2] = ones;
            },
            0x55 => {
                self.store_registers(x);
            },
            _ => {
                self.load_registers(x);
            },
        }
        if !stall {
            self.pc += 2;
        }
    }
}

} // verus!
