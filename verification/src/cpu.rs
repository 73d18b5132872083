//! The interpreter: registers, call stack and timer around the memory, the
//! display and the keypad, and the fetch-decode-execute cycle.

use vstd::prelude::*;
use std::ops::IndexMut;
use crate::fault::Fault;
use crate::keypad::first_pressed;
use crate::keypad::lemma_keypad_len;
use crate::keypad::Keypad;
use crate::machine::kk_of;
use crate::machine::n_of;
use crate::machine::nnn_of;
use crate::machine::outcome;
use crate::machine::x_of;
use crate::machine::y_of;
use crate::machine::Machine;
use crate::ram::lemma_ram_len;
use crate::ram::Ram;
use crate::ram::FONTSET_ADDR;
use crate::stack::lemma_stack_len;
use crate::stack::CallStack;
use crate::video::lemma_video_len;
use crate::video::Video;

verus! {

broadcast use {lemma_ram_len, lemma_video_len, lemma_keypad_len, lemma_stack_len};

/// A CHIP-8 interpreter. The display and the keypad are open to the host,
/// which reads the one and writes the other between cycles.
pub struct Cpu {
    pc: u16,
    v: [u8; 16],
    i: u16,
    stack: CallStack,
    delay: u8,
    ram: Ram,
    pub video: Video,
    pub keypad: Keypad,
}

impl View for Cpu {
    type V = Machine;

    /// The state of the interpreter as plain values.
    closed spec fn view(&self) -> Machine {
        Machine {
            pc: self.pc,
            v: self.v@,
            i: self.i,
            stack: self.stack@,
            delay: self.delay,
            ram: self.ram@,
            video: self.video@,
            keys: self.keypad@,
        }
    }
}

/// A byte from the thread-local generator of the `rand` crate, through
/// `rand::random`. Nothing is claimed of its value.
#[verifier::external_body]
fn random_byte() -> (byte: u8) {
    rand::random::<u8>()
}

/// How the bit masks and shifts that pick an instruction apart relate to
/// its fields.
proof fn lemma_fields(op: u16)
    by (bit_vector)
    ensures
        op & 0xF000 == (op / 4096) * 4096,
        (op & 0x0F00) >> 8 == (op / 256) % 16,
        (op & 0x00F0) >> 4 == (op / 16) % 16,
        op & 0x000F == op % 16,
        op & 0x00FF == op % 256,
        op & 0x0FFF == op % 4096,
{
}

impl Cpu {
    /// Address at which programs are loaded and execution starts.
    pub const START_ADDR: u16 = 0x200;

    /// An interpreter with no program loaded.
    pub fn new() -> (cpu: Self)
        ensures
            cpu@ == Machine::initial(),
    {
        Self {
            pc: Self::START_ADDR,
            v: [0; 16],
            i: 0,
            stack: CallStack::new(),
            delay: 0,
            ram: Ram::new(),
            video: Video::new(),
            keypad: Keypad::new(),
        }
    }

    /// An interpreter with `rom` loaded at the start address, if it fits.
    pub fn with_rom(rom: &[u8]) -> (res: Result<Self, Fault>)
        ensures
            match res {
                Ok(cpu) => Machine::initial().load_program(rom@) == Ok::<Machine, Fault>(cpu@),
                Err(fault) => Machine::initial().load_program(rom@) == Err::<Machine, Fault>(
                    fault,
                ),
            },
    {
        let mut cpu = Self::new();
        match cpu.load_rom(rom) {
            Ok(_) => Ok(cpu),
            Err(fault) => Err(fault),
        }
    }

    /// Copies `rom` into memory at the start address. A program longer than
    /// the 3584 bytes from there to the end of memory is refused.
    pub fn load_rom(&mut self, rom: &[u8]) -> (res: Result<(), Fault>)
        ensures
            outcome(old(self)@.load_program(rom@), old(self)@, final(self)@, res),
    {
        if rom.len() > 4096 - 0x200 {
            return Err(Fault::RomTooLarge);
        }
        self.ram.load(Self::START_ADDR, rom);
        Ok(())
    }

    /// Address of the next instruction.
    pub fn program_counter(&self) -> (pc: u16)
        ensures
            pc == self@.pc,
    {
        self.pc
    }

    /// Value of general register `x`.
    pub fn register(&self, x: u8) -> (value: u8)
        requires
            x < 16,
        ensures
            value == self@.v[x as int],
    {
        self.v[x as usize]
    }

    /// Value of the index register.
    pub fn index_register(&self) -> (i: u16)
        ensures
            i == self@.i,
    {
        self.i
    }

    /// Value of the delay timer.
    pub fn delay_timer(&self) -> (delay: u8)
        ensures
            delay == self@.delay,
    {
        self.delay
    }

    /// Number of subroutine calls that have not returned yet.
    pub fn stack_depth(&self) -> (depth: u8)
        ensures
            depth == self@.stack.len(),
    {
        self.stack.depth()
    }

    /// The byte of memory at `addr`.
    pub fn memory(&self, addr: u16) -> (byte: u8)
        requires
            addr < 4096,
        ensures
            byte == self@.ram[addr as int],
    {
        self.ram[addr]
    }

    /// The instruction word at the program counter, high byte first.
    fn fetch(&self) -> (res: Result<u16, Fault>)
        ensures
            res == self@.fetch(),
    {
        if self.pc >= 4095 {
            return Err(Fault::ProgramCounterOutOfBounds);
        }
        let high = self.ram[self.pc];
        let low = self.ram[self.pc + 1];
        Ok(high as u16 * 256 + low as u16)
    }

    /// Runs one cycle: fetches the instruction at the program counter, moves
    /// the program counter past it, executes it and counts the delay timer
    /// down by one, but not below zero. The random instruction draws its
    /// byte from the thread's random number generator, so the cycle is one
    /// of those that `cycle_with` can run. A fault leaves the interpreter as
    /// it was.
    pub fn cycle(&mut self) -> (res: Result<(), Fault>)
        ensures
            exists|random: u8|
                outcome(#[trigger] old(self)@.step(random), old(self)@, final(self)@, res),
    {
        let op = match self.fetch() {
            Ok(op) => op,
            Err(fault) => {
                assert(outcome(old(self)@.step(0), old(self)@, self@, Err(fault)));
                return Err(fault);
            },
        };
        let random = if op & 0xF000 == 0xC000 {
            random_byte()
        } else {
            0
        };
        let res = self.perform(op, random);
        assert(outcome(old(self)@.step(random), old(self)@, self@, res));
        res
    }

    /// Runs one cycle in which the random instruction, if it is the one
    /// executed, draws `random`. A fault leaves the interpreter as it was.
    pub fn cycle_with(&mut self, random: u8) -> (res: Result<(), Fault>)
        ensures
            outcome(old(self)@.step(random), old(self)@, final(self)@, res),
    {
        match self.fetch() {
            Ok(op) => self.perform(op, random),
            Err(fault) => Err(fault),
        }
    }

    /// The cycle from the fetched instruction `op` on.
    fn perform(&mut self, op: u16, random: u8) -> (res: Result<(), Fault>)
        requires
            old(self)@.fetch() == Ok::<u16, Fault>(op),
        ensures
            outcome(old(self)@.step(random), old(self)@, final(self)@, res),
    {
        let at = self.pc;
        self.pc += 2;
        match self.execute(op, random) {
            Ok(_) => {
                self.delay = self.delay.saturating_sub(1);
                Ok(())
            },
            Err(fault) => {
                self.pc = at;
                Err(fault)
            },
        }
    }

    /// Dispatches on the high nibble of `op`.
    fn execute(&mut self, op: u16, random: u8) -> (res: Result<(), Fault>)
        requires
            2 <= old(self)@.pc <= 4096,
        ensures
            outcome(old(self)@.execute(op, random), old(self)@, final(self)@, res),
    {
        proof {
            lemma_fields(op);
        }
        match op & 0xF000 {
            0x0000 => self.op_0xxx(op),
            0x1000 => {
                self.op_1nnn(op);
                Ok(())
            },
            0x2000 => self.op_2nnn(op),
            0x3000 => {
                self.op_3xkk(op);
                Ok(())
            },
            0x4000 => {
                self.op_4xkk(op);
                Ok(())
            },
            0x5000 => {
                self.op_5xy0(op);
                Ok(())
            },
            0x6000 => {
                self.op_6xkk(op);
                Ok(())
            },
            0x7000 => {
                self.op_7xkk(op);
                Ok(())
            },
            0x8000 => {
                self.op_8xxx(op);
                Ok(())
            },
            0x9000 => {
                self.op_9xy0(op);
                Ok(())
            },
            0xA000 => {
                self.op_annn(op);
                Ok(())
            },
            0xB000 => {
                self.op_bnnn(op);
                Ok(())
            },
            0xC000 => {
                self.op_cxkk(op, random);
                Ok(())
            },
            0xD000 => self.op_dxyn(op),
            0xE000 => self.op_exxx(op),
            _ => self.op_fxxx(op),
        }
    }

    /// Family `0___`: clear the display, return, or nothing.
    fn op_0xxx(&mut self, op: u16) -> (res: Result<(), Fault>)
        ensures
            outcome(old(self)@.system(op), old(self)@, final(self)@, res),
    {
        match op {
            0x00E0 => {
                self.op_00e0();
                Ok(())
            },
            0x00EE => self.op_00ee(),
            _ => Ok(()),
        }
    }

    /// Family `8xy_`: register-to-register operations, chosen by the low nibble.
    fn op_8xxx(&mut self, op: u16)
        ensures
            final(self)@ == old(self)@.alu(op),
    {
        proof {
            lemma_fields(op);
        }
        match op & 0x000F {
            0x0 => self.op_8xy0(op),
            0x1 => self.op_8xy1(op),
            0x2 => self.op_8xy2(op),
            0x3 => self.op_8xy3(op),
            0x4 => self.op_8xy4(op),
            0x5 => self.op_8xy5(op),
            0x6 => self.op_8xy6(op),
            0x7 => self.op_8xy7(op),
            0xE => self.op_8xye(op),
            _ => {},
        }
    }

    /// Family `Ex__`: key tests, chosen by the low byte.
    fn op_exxx(&mut self, op: u16) -> (res: Result<(), Fault>)
        requires
            old(self)@.pc <= 4096,
        ensures
            outcome(old(self)@.key_test(op), old(self)@, final(self)@, res),
    {
        proof {
            lemma_fields(op);
        }
        match op & 0x00FF {
            0x9E => self.op_ex9e(op),
            0xA1 => self.op_exa1(op),
            _ => Ok(()),
        }
    }

    /// Family `Fx__`: timer and memory operations, chosen by the low byte.
    fn op_fxxx(&mut self, op: u16) -> (res: Result<(), Fault>)
        requires
            old(self)@.pc >= 2,
        ensures
            outcome(old(self)@.misc(op), old(self)@, final(self)@, res),
    {
        proof {
            lemma_fields(op);
        }
        match op & 0x00FF {
            0x07 => {
                self.op_fx07(op);
                Ok(())
            },
            0x0A => {
                self.op_fx0a(op);
                Ok(())
            },
            0x15 => {
                self.op_fx15(op);
                Ok(())
            },
            0x1E => {
                self.op_fx1e(op);
                Ok(())
            },
            0x29 => {
                self.op_fx29(op);
                Ok(())
            },
            0x33 => self.op_fx33(op),
            0x55 => self.op_fx55(op),
            0x65 => self.op_fx65(op),
            _ => Ok(()),
        }
    }

    /// Clears the display.
    fn op_00e0(&mut self)
        ensures
            final(self)@ == old(self)@.clear_display(),
    {
        self.video.clear();
    }

    /// Returns from a subroutine.
    fn op_00ee(&mut self) -> (res: Result<(), Fault>)
        ensures
            outcome(old(self)@.subroutine_return(), old(self)@, final(self)@, res),
    {
        match self.stack.pop() {
            Ok(addr) => {
                self.pc = addr;
                Ok(())
            },
            Err(fault) => Err(fault),
        }
    }

    /// Jumps to `nnn`.
    fn op_1nnn(&mut self, op: u16)
        ensures
            final(self)@ == old(self)@.with_pc(nnn_of(op)),
    {
        self.pc = Self::nnn(op);
    }

    /// Calls the subroutine at `nnn`.
    fn op_2nnn(&mut self, op: u16) -> (res: Result<(), Fault>)
        ensures
            outcome(old(self)@.call(nnn_of(op)), old(self)@, final(self)@, res),
    {
        match self.stack.push(self.pc) {
            Ok(_) => {
                self.pc = Self::nnn(op);
                Ok(())
            },
            Err(fault) => Err(fault),
        }
    }

    /// Skips the next instruction if `Vx == kk`.
    fn op_3xkk(&mut self, op: u16)
        requires
            old(self)@.pc <= 4096,
        ensures
            final(self)@ == old(self)@.skip_if(old(self)@.v[x_of(op)] == kk_of(op)),
    {
        if self.v[Self::x(op)] == Self::kk(op) {
            self.pc += 2;
        }
    }

    /// Skips the next instruction if `Vx != kk`.
    fn op_4xkk(&mut self, op: u16)
        requires
            old(self)@.pc <= 4096,
        ensures
            final(self)@ == old(self)@.skip_if(old(self)@.v[x_of(op)] != kk_of(op)),
    {
        if self.v[Self::x(op)] != Self::kk(op) {
            self.pc += 2;
        }
    }

    /// Skips the next instruction if `Vx == Vy`.
    fn op_5xy0(&mut self, op: u16)
        requires
            old(self)@.pc <= 4096,
        ensures
            final(self)@ == old(self)@.skip_if(old(self)@.v[x_of(op)] == old(self)@.v[y_of(op)]),
    {
        if self.v[Self::x(op)] == self.v[Self::y(op)] {
            self.pc += 2;
        }
    }

    /// Sets `Vx` to `kk`.
    fn op_6xkk(&mut self, op: u16)
        ensures
            final(self)@ == old(self)@.with_register(x_of(op), kk_of(op)),
    {
        self.v[Self::x(op)] = Self::kk(op);
    }

    /// Adds `kk` to `Vx`, wrapping, without touching the flag.
    fn op_7xkk(&mut self, op: u16)
        ensures
            final(self)@ == old(self)@.add_immediate(x_of(op), kk_of(op)),
    {
        let x = Self::x(op);
        self.v[x] = self.v[x].wrapping_add(Self::kk(op));
    }

    /// Sets `Vx` to `Vy`.
    fn op_8xy0(&mut self, op: u16)
        ensures
            final(self)@ == old(self)@.with_register(x_of(op), old(self)@.v[y_of(op)]),
    {
        self.v[Self::x(op)] = self.v[Self::y(op)];
    }

    /// Sets `Vx` to `Vx | Vy`.
    fn op_8xy1(&mut self, op: u16)
        ensures
            final(self)@ == old(self)@.with_register(
                x_of(op),
                old(self)@.v[x_of(op)] | old(self)@.v[y_of(op)],
            ),
    {
        let x = Self::x(op);
        self.v[x] = self.v[x] | self.v[Self::y(op)];
    }

    /// Sets `Vx` to `Vx & Vy`.
    fn op_8xy2(&mut self, op: u16)
        ensures
            final(self)@ == old(self)@.with_register(
                x_of(op),
                old(self)@.v[x_of(op)] & old(self)@.v[y_of(op)],
            ),
    {
        let x = Self::x(op);
        self.v[x] = self.v[x] & self.v[Self::y(op)];
    }

    /// Sets `Vx` to `Vx ^ Vy`.
    fn op_8xy3(&mut self, op: u16)
        ensures
            final(self)@ == old(self)@.with_register(
                x_of(op),
                old(self)@.v[x_of(op)] ^ old(self)@.v[y_of(op)],
            ),
    {
        let x = Self::x(op);
        self.v[x] = self.v[x] ^ self.v[Self::y(op)];
    }

    /// Adds `Vy` to `Vx`; the flag is the carry.
    fn op_8xy4(&mut self, op: u16)
        ensures
            final(self)@ == old(self)@.add_registers(x_of(op), y_of(op)),
    {
        let x = Self::x(op);
        let y = Self::y(op);
        let sum = self.v[x] as u16 + self.v[y] as u16;

        self.v[x] = (sum % 256) as u8;
        self.v[0xF] = if sum > 255 { 1 } else { 0 };
    }

    /// Subtracts `Vy` from `Vx`; the flag is set when nothing is borrowed.
    fn op_8xy5(&mut self, op: u16)
        ensures
            final(self)@ == old(self)@.subtract(
                x_of(op),
                old(self)@.v[x_of(op)],
                old(self)@.v[y_of(op)],
            ),
    {
        let x = Self::x(op);
        let y = Self::y(op);
        let borrow = self.v[x] < self.v[y];

        self.v[x] = self.v[x].wrapping_sub(self.v[y]);
        self.v[0xF] = if borrow { 0 } else { 1 };
    }

    /// Shifts `Vx` right by one; the flag is the bit shifted out.
    fn op_8xy6(&mut self, op: u16)
        ensures
            final(self)@ == old(self)@.shift_right(x_of(op)),
    {
        let x = Self::x(op);
        let value = self.v[x];
        assert(value >> 1 == value / 2 && value & 1 == value % 2) by (bit_vector);

        self.v[x] = value >> 1;
        self.v[0xF] = value & 1;
    }

    /// Sets `Vx` to `Vy - Vx`; the flag is set when nothing is borrowed.
    fn op_8xy7(&mut self, op: u16)
        ensures
            final(self)@ == old(self)@.subtract(
                x_of(op),
                old(self)@.v[y_of(op)],
                old(self)@.v[x_of(op)],
            ),
    {
        let x = Self::x(op);
        let y = Self::y(op);
        let borrow = self.v[y] < self.v[x];

        self.v[x] = self.v[y].wrapping_sub(self.v[x]);
        self.v[0xF] = if borrow { 0 } else { 1 };
    }

    /// Shifts `Vx` left by one; the flag is the bit shifted out.
    fn op_8xye(&mut self, op: u16)
        ensures
            final(self)@ == old(self)@.shift_left(x_of(op)),
    {
        let x = Self::x(op);
        let value = self.v[x];
        assert(value << 1 == (value * 2) % 256 && value >> 7 == (if value >= 128 {
            1u8
        } else {
            0u8
        })) by (bit_vector);

        self.v[x] = value << 1;
        self.v[0xF] = value >> 7;
    }

    /// Skips the next instruction if `Vx != Vy`.
    fn op_9xy0(&mut self, op: u16)
        requires
            old(self)@.pc <= 4096,
        ensures
            final(self)@ == old(self)@.skip_if(old(self)@.v[x_of(op)] != old(self)@.v[y_of(op)]),
    {
        if self.v[Self::x(op)] != self.v[Self::y(op)] {
            self.pc += 2;
        }
    }

    /// Sets the index register to `nnn`.
    fn op_annn(&mut self, op: u16)
        ensures
            final(self)@ == (Machine { i: nnn_of(op), ..old(self)@ }),
    {
        self.i = Self::nnn(op);
    }

    /// Jumps to `V0 + nnn`.
    fn op_bnnn(&mut self, op: u16)
        ensures
            final(self)@ == old(self)@.with_pc((old(self)@.v[0] + nnn_of(op)) as u16),
    {
        self.pc = self.v[0] as u16 + Self::nnn(op);
    }

    /// Sets `Vx` to `random & kk`.
    fn op_cxkk(&mut self, op: u16, random: u8)
        ensures
            final(self)@ == old(self)@.with_register(x_of(op), random & kk_of(op)),
    {
        self.v[Self::x(op)] = random & Self::kk(op);
    }

    /// Draws the `n` rows at the index register at (`Vx`, `Vy`); the flag is the
    /// collision.
    fn op_dxyn(&mut self, op: u16) -> (res: Result<(), Fault>)
        ensures
            outcome(
                old(self)@.draw_sprite(x_of(op), y_of(op), n_of(op)),
                old(self)@,
                final(self)@,
                res,
            ),
    {
        let x = self.v[Self::x(op)];
        let y = self.v[Self::y(op)];
        let h = op & 0x000F;
        proof {
            lemma_fields(op);
        }
        if self.i > 4096 - h {
            return Err(Fault::MemoryOutOfBounds);
        }
        let flipped = self.video.draw(x, y, &self.ram[self.i..self.i + h]);

        self.v[0xF] = if flipped { 1 } else { 0 };
        Ok(())
    }

    /// Skips the next instruction if key `Vx` is held.
    fn op_ex9e(&mut self, op: u16) -> (res: Result<(), Fault>)
        requires
            old(self)@.pc <= 4096,
        ensures
            outcome(old(self)@.skip_if_key(x_of(op), true), old(self)@, final(self)@, res),
    {
        let key = self.v[Self::x(op)];
        if key >= 16 {
            return Err(Fault::InvalidKey);
        }
        if self.keypad.is_pressed(key) {
            self.pc += 2;
        }
        Ok(())
    }

    /// Skips the next instruction if key `Vx` is not held.
    fn op_exa1(&mut self, op: u16) -> (res: Result<(), Fault>)
        requires
            old(self)@.pc <= 4096,
        ensures
            outcome(old(self)@.skip_if_key(x_of(op), false), old(self)@, final(self)@, res),
    {
        let key = self.v[Self::x(op)];
        if key >= 16 {
            return Err(Fault::InvalidKey);
        }
        if !self.keypad.is_pressed(key) {
            self.pc += 2;
        }
        Ok(())
    }

    /// Sets `Vx` to the delay timer.
    fn op_fx07(&mut self, op: u16)
        ensures
            final(self)@ == old(self)@.with_register(x_of(op), old(self)@.delay),
    {
        self.v[Self::x(op)] = self.delay;
    }

    /// Waits for a key among 0 to 14: stores the lowest one held in `Vx`, or
    /// steps back onto this instruction if none is.
    fn op_fx0a(&mut self, op: u16)
        requires
            old(self)@.pc >= 2,
        ensures
            final(self)@ == old(self)@.await_key(x_of(op)),
    {
        let x = Self::x(op);

        for i in 0..15u8
            invariant
                x == x_of(op),
                x < 16,
                self@ == old(self)@,
                first_pressed(self@.keys, 0) == first_pressed(self@.keys, i as int),
        {
            if self.keypad.is_pressed(i) {
                self.v[x] = i;
                return ;
            }
        }

        self.pc -= 2;
    }

    /// Sets the delay timer to `Vx`.
    fn op_fx15(&mut self, op: u16)
        ensures
            final(self)@ == (Machine { delay: old(self)@.v[x_of(op)], ..old(self)@ }),
    {
        self.delay = self.v[Self::x(op)];
    }

    /// Adds `Vx` to the index register, wrapping.
    fn op_fx1e(&mut self, op: u16)
        ensures
            final(self)@ == old(self)@.add_to_index(x_of(op)),
    {
        self.i = self.i.wrapping_add(self.v[Self::x(op)] as u16);
    }

    /// Points the index register at the glyph for `Vx`.
    fn op_fx29(&mut self, op: u16)
        ensures
            final(self)@ == old(self)@.point_to_glyph(x_of(op)),
    {
        self.i = FONTSET_ADDR + 5 * self.v[Self::x(op)] as u16;
    }

    /// Stores the decimal digits of `Vx` at the index register.
    fn op_fx33(&mut self, op: u16) -> (res: Result<(), Fault>)
        ensures
            outcome(old(self)@.store_decimal(x_of(op)), old(self)@, final(self)@, res),
    {
        let vx = self.v[Self::x(op)];
        if self.i >= 4094 {
            return Err(Fault::MemoryOutOfBounds);
        }
        *self.ram.index_mut(self.i + 2) = vx % 10;
        *self.ram.index_mut(self.i + 1) = (vx / 10) % 10;
        *self.ram.index_mut(self.i) = (vx / 100) % 10;
        assert(self@.ram =~= old(self)@.store_decimal(x_of(op))->Ok_0.ram);
        Ok(())
    }

    /// Stores `V0` to `Vx` at the index register.
    fn op_fx55(&mut self, op: u16) -> (res: Result<(), Fault>)
        ensures
            outcome(old(self)@.store_registers(x_of(op)), old(self)@, final(self)@, res),
    {
        let x = Self::x(op) as u16;
        if self.i >= 4096 - x {
            return Err(Fault::MemoryOutOfBounds);
        }
        let mut offset: u16 = 0;
        while offset <= x
            invariant
                x == x_of(op),
                x < 16,
                offset <= x + 1,
                self.i + x < 4096,
                self@ == (Machine {
                    ram: Seq::new(
                        4096,
                        |a: int|
                            if old(self)@.i <= a < old(self)@.i + offset {
                                old(self)@.v[a - old(self)@.i]
                            } else {
                                old(self)@.ram[a]
                            },
                    ),
                    ..old(self)@
                }),
            decreases x + 1 - offset,
        {
            *self.ram.index_mut(self.i + offset) = self.v[offset as usize];
            offset += 1;
        }
        assert(self@.ram =~= old(self)@.store_registers(x_of(op))->Ok_0.ram);
        Ok(())
    }

    /// Loads `V0` to `Vx` from the index register.
    fn op_fx65(&mut self, op: u16) -> (res: Result<(), Fault>)
        ensures
            outcome(old(self)@.load_registers(x_of(op)), old(self)@, final(self)@, res),
    {
        let x = Self::x(op) as u16;
        if self.i >= 4096 - x {
            return Err(Fault::MemoryOutOfBounds);
        }
        let mut offset: u16 = 0;
        while offset <= x
            invariant
                x == x_of(op),
                x < 16,
                offset <= x + 1,
                self.i + x < 4096,
                self@ == (Machine {
                    v: Seq::new(
                        16,
                        |r: int|
                            if r < offset {
                                old(self)@.ram[old(self)@.i + r]
                            } else {
                                old(self)@.v[r]
                            },
                    ),
                    ..old(self)@
                }),
            decreases x + 1 - offset,
        {
            self.v[offset as usize] = self.ram[self.i + offset];
            offset += 1;
        }
        assert(self@.v =~= old(self)@.load_registers(x_of(op))->Ok_0.v);
        Ok(())
    }

    /// The first register operand of `op`.
    #[inline(always)]
    fn x(op: u16) -> (x: usize)
        ensures
            x == x_of(op),
            x < 16,
    {
        proof {
            lemma_fields(op);
        }
        ((op & 0x0F00) >> 8) as usize
    }

    /// The second register operand of `op`.
    #[inline(always)]
    fn y(op: u16) -> (y: usize)
        ensures
            y == y_of(op),
            y < 16,
    {
        proof {
            lemma_fields(op);
        }
        ((op & 0x00F0) >> 4) as usize
    }

    /// The 8-bit immediate of `op`.
    #[inline(always)]
    fn kk(op: u16) -> (kk: u8)
        ensures
            kk == kk_of(op),
    {
        proof {
            lemma_fields(op);
        }
        (op & 0x00FF) as u8
    }

    /// The 12-bit address of `op`.
    #[inline(always)]
    fn nnn(op: u16) -> (nnn: u16)
        ensures
            nnn == nnn_of(op),
    {
        proof {
            lemma_fields(op);
        }
        op & 0x0FFF
    }
}

/// The state of an interpreter always has the sizes of `Machine::wf`.
pub broadcast proof fn lemma_cpu_wf(cpu: Cpu)
    ensures
        #[trigger] cpu@.wf(),
{
}

} // verus!
