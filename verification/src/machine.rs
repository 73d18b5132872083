//! The mathematical model of the interpreter: its state as plain values and
//! the meaning of every instruction as a function on that state.

use vstd::prelude::*;
use crate::fault::Fault;
use crate::keypad::first_pressed;
use crate::ram::initial_memory;
use crate::ram::loaded;
use crate::video::collides;
use crate::video::drawn;

verus! {

/// The operation family of an instruction: its high nibble.
pub open spec fn family(op: u16) -> int {
    op as int / 4096
}

/// The first register operand: the second nibble.
pub open spec fn x_of(op: u16) -> int {
    (op as int / 256) % 16
}

/// The second register operand: the third nibble.
pub open spec fn y_of(op: u16) -> int {
    (op as int / 16) % 16
}

/// The low nibble.
pub open spec fn n_of(op: u16) -> int {
    op as int % 16
}

/// The 8-bit immediate: the low byte.
pub open spec fn kk_of(op: u16) -> u8 {
    (op as int % 256) as u8
}

/// The 12-bit address operand.
pub open spec fn nnn_of(op: u16) -> u16 {
    (op as int % 4096) as u16
}

/// The number `0` or `1` that stands for a flag in register F.
pub open spec fn flag_value(flag: bool) -> u8 {
    if flag {
        1
    } else {
        0
    }
}

/// The whole state of the interpreter.
#[verifier::ext_equal]
pub struct Machine {
    /// Address of the next instruction.
    pub pc: u16,
    /// The sixteen general registers; register 15 doubles as the flag.
    pub v: Seq<u8>,
    /// The index register.
    pub i: u16,
    /// Return addresses of the subroutines being executed, oldest first.
    pub stack: Seq<u16>,
    /// The delay timer.
    pub delay: u8,
    /// The 4096 bytes of memory.
    pub ram: Seq<u8>,
    /// The 2048 pixels, row by row.
    pub video: Seq<bool>,
    /// The sixteen key flags.
    pub keys: Seq<bool>,
}

impl Machine {
    /// The sizes that every interpreter state has.
    pub open spec fn wf(self) -> bool {
        &&& self.v.len() == 16
        &&& self.stack.len() <= 16
        &&& self.ram.len() == 4096
        &&& self.video.len() == 2048
        &&& self.keys.len() == 16
    }

    /// The state of a new interpreter: program counter at `0x200`, glyphs in
    /// memory, everything else zero, off, released or empty.
    pub open spec fn initial() -> Machine {
        Machine {
            pc: 0x200,
            v: Seq::new(16, |r: int| 0u8),
            i: 0,
            stack: Seq::empty(),
            delay: 0,
            ram: initial_memory(),
            video: Seq::new(2048, |p: int| false),
            keys: Seq::new(16, |k: int| false),
        }
    }

    /// The same state with `rom` copied into memory from `0x200` on, if it
    /// fits.
    pub open spec fn load_program(self, rom: Seq<u8>) -> Result<Machine, Fault> {
        if 0x200 + rom.len() > 4096 {
            Err(Fault::RomTooLarge)
        } else {
            Ok(Machine { ram: loaded(self.ram, 0x200, rom), ..self })
        }
    }

    /// The same state with the program counter at `pc`.
    pub open spec fn with_pc(self, pc: u16) -> Machine {
        Machine { pc, ..self }
    }

    /// The same state with `value` in register `x`.
    pub open spec fn with_register(self, x: int, value: u8) -> Machine {
        Machine { v: self.v.update(x, value), ..self }
    }

    /// The same state with register F set to 1 if `flag` holds, else to 0.
    pub open spec fn with_flag(self, flag: bool) -> Machine {
        self.with_register(15, flag_value(flag))
    }

    /// The instruction word at the program counter, high byte first.
    pub open spec fn fetch(self) -> Result<u16, Fault> {
        if self.pc as int + 1 < 4096 {
            Ok((self.ram[self.pc as int] * 256 + self.ram[self.pc as int + 1]) as u16)
        } else {
            Err(Fault::ProgramCounterOutOfBounds)
        }
    }

    /// The program counter moved past one instruction.
    pub open spec fn advance(self) -> Machine {
        self.with_pc((self.pc + 2) as u16)
    }

    /// The program counter moved back to the instruction just fetched.
    pub open spec fn rewind(self) -> Machine {
        self.with_pc((self.pc - 2) as u16)
    }

    /// The delay timer one lower, but never below zero.
    pub open spec fn tick(self) -> Machine {
        Machine {
            delay: if self.delay > 0 {
                (self.delay - 1) as u8
            } else {
                0
            },
            ..self
        }
    }

    /// `00E0`: every pixel off.
    pub open spec fn clear_display(self) -> Machine {
        Machine { video: Seq::new(2048, |p: int| false), ..self }
    }

    /// `00EE`: continue at the address on top of the stack.
    pub open spec fn subroutine_return(self) -> Result<Machine, Fault> {
        if self.stack.len() == 0 {
            Err(Fault::StackUnderflow)
        } else {
            Ok(Machine { pc: self.stack.last(), stack: self.stack.drop_last(), ..self })
        }
    }

    /// `2nnn`: remember where to come back to and continue at `target`.
    pub open spec fn call(self, target: u16) -> Result<Machine, Fault> {
        if self.stack.len() >= 16 {
            Err(Fault::StackOverflow)
        } else {
            Ok(Machine { pc: target, stack: self.stack.push(self.pc), ..self })
        }
    }

    /// The skip instructions: pass over the next instruction if `taken`.
    pub open spec fn skip_if(self, taken: bool) -> Machine {
        if taken {
            self.advance()
        } else {
            self
        }
    }

    /// `7xkk`: add an immediate to register `x`, wrapping, flag untouched.
    pub open spec fn add_immediate(self, x: int, kk: u8) -> Machine {
        self.with_register(x, ((self.v[x] + kk) % 256) as u8)
    }

    /// `8xy4`: add register `y` to register `x`, wrapping; the flag is the
    /// carry.
    pub open spec fn add_registers(self, x: int, y: int) -> Machine {
        let sum = self.v[x] + self.v[y];
        self.with_register(x, (sum % 256) as u8).with_flag(sum > 255)
    }

    /// `8xy5` and `8xy7`: store `minuend - subtrahend` in register `x`,
    /// wrapping; the flag is set when there is no borrow.
    pub open spec fn subtract(self, x: int, minuend: u8, subtrahend: u8) -> Machine {
        self.with_register(x, ((minuend - subtrahend) % 256) as u8).with_flag(
            minuend >= subtrahend,
        )
    }

    /// `8xy6`: halve register `x`; the flag is the bit shifted out.
    pub open spec fn shift_right(self, x: int) -> Machine {
        self.with_register(x, (self.v[x] / 2) as u8).with_flag(self.v[x] % 2 == 1)
    }

    /// `8xyE`: double register `x`, wrapping; the flag is the bit shifted out.
    pub open spec fn shift_left(self, x: int) -> Machine {
        self.with_register(x, ((self.v[x] * 2) % 256) as u8).with_flag(self.v[x] >= 128)
    }

    /// The register-to-register family `8xy_`; an unknown low nibble does
    /// nothing.
    pub open spec fn alu(self, op: u16) -> Machine {
        let x = x_of(op);
        let y = y_of(op);
        let n = n_of(op);
        if n == 0x0 {
            self.with_register(x, self.v[y])
        } else if n == 0x1 {
            self.with_register(x, self.v[x] | self.v[y])
        } else if n == 0x2 {
            self.with_register(x, self.v[x] & self.v[y])
        } else if n == 0x3 {
            self.with_register(x, self.v[x] ^ self.v[y])
        } else if n == 0x4 {
            self.add_registers(x, y)
        } else if n == 0x5 {
            self.subtract(x, self.v[x], self.v[y])
        } else if n == 0x6 {
            self.shift_right(x)
        } else if n == 0x7 {
            self.subtract(x, self.v[y], self.v[x])
        } else if n == 0xE {
            self.shift_left(x)
        } else {
            self
        }
    }

    /// `Dxyn`: XOR the `n` bytes at the index register into the display at
    /// (`Vx`, `Vy`); the flag reports a collision.
    pub open spec fn draw_sprite(self, x: int, y: int, n: int) -> Result<Machine, Fault> {
        if self.i + n > 4096 {
            Err(Fault::MemoryOutOfBounds)
        } else {
            let sprite = self.ram.subrange(self.i as int, self.i + n);
            Ok(
                Machine {
                    video: drawn(self.video, self.v[x], self.v[y], sprite),
                    ..self
                }.with_flag(collides(self.video, self.v[x], self.v[y], sprite)),
            )
        }
    }

    /// `Ex9E` and `ExA1`: skip if the key named by register `x` is, or is
    /// not, held down.
    pub open spec fn skip_if_key(self, x: int, pressed: bool) -> Result<Machine, Fault> {
        if self.v[x] >= 16 {
            Err(Fault::InvalidKey)
        } else {
            Ok(self.skip_if(self.keys[self.v[x] as int] == pressed))
        }
    }

    /// The key-test family `Ex__`; an unknown low byte does nothing.
    pub open spec fn key_test(self, op: u16) -> Result<Machine, Fault> {
        if kk_of(op) == 0x9E {
            self.skip_if_key(x_of(op), true)
        } else if kk_of(op) == 0xA1 {
            self.skip_if_key(x_of(op), false)
        } else {
            Ok(self)
        }
    }

    /// `Fx0A`: store the lowest held key among 0 to 14 in register `x`, or,
    /// if none is held, stay on this instruction.
    pub open spec fn await_key(self, x: int) -> Machine {
        match first_pressed(self.keys, 0) {
            Some(key) => self.with_register(x, key),
            None => self.rewind(),
        }
    }

    /// `Fx1E`: add register `x` to the index register, wrapping at 16 bits.
    pub open spec fn add_to_index(self, x: int) -> Machine {
        Machine { i: ((self.i + self.v[x]) % 0x10000) as u16, ..self }
    }

    /// `Fx29`: point the index register at the glyph for the value of
    /// register `x`.
    pub open spec fn point_to_glyph(self, x: int) -> Machine {
        Machine { i: (0x50 + 5 * self.v[x]) as u16, ..self }
    }

    /// `Fx33`: write the hundreds, tens and units of register `x` to the
    /// three bytes at the index register.
    pub open spec fn store_decimal(self, x: int) -> Result<Machine, Fault> {
        if self.i + 2 >= 4096 {
            Err(Fault::MemoryOutOfBounds)
        } else {
            let value = self.v[x] as int;
            Ok(
                Machine {
                    ram: self.ram.update(self.i as int, (value / 100) as u8).update(
                        self.i + 1,
                        ((value / 10) % 10) as u8,
                    ).update(self.i + 2, (value % 10) as u8),
                    ..self
                },
            )
        }
    }

    /// `Fx55`: copy registers 0 to `x` to memory from the index register on.
    pub open spec fn store_registers(self, x: int) -> Result<Machine, Fault> {
        if self.i + x >= 4096 {
            Err(Fault::MemoryOutOfBounds)
        } else {
            Ok(
                Machine {
                    ram: Seq::new(
                        4096,
                        |a: int|
                            if self.i <= a <= self.i + x {
                                self.v[a - self.i]
                            } else {
                                self.ram[a]
                            },
                    ),
                    ..self
                },
            )
        }
    }

    /// `Fx65`: fill registers 0 to `x` from memory at the index register.
    pub open spec fn load_registers(self, x: int) -> Result<Machine, Fault> {
        if self.i + x >= 4096 {
            Err(Fault::MemoryOutOfBounds)
        } else {
            Ok(
                Machine {
                    v: Seq::new(
                        16,
                        |r: int|
                            if r <= x {
                                self.ram[self.i + r]
                            } else {
                                self.v[r]
                            },
                    ),
                    ..self
                },
            )
        }
    }

    /// The timer and memory family `Fx__`; an unknown low byte does nothing.
    pub open spec fn misc(self, op: u16) -> Result<Machine, Fault> {
        let x = x_of(op);
        let kk = kk_of(op);
        if kk == 0x07 {
            Ok(self.with_register(x, self.delay))
        } else if kk == 0x0A {
            Ok(self.await_key(x))
        } else if kk == 0x15 {
            Ok(Machine { delay: self.v[x], ..self })
        } else if kk == 0x1E {
            Ok(self.add_to_index(x))
        } else if kk == 0x29 {
            Ok(self.point_to_glyph(x))
        } else if kk == 0x33 {
            self.store_decimal(x)
        } else if kk == 0x55 {
            self.store_registers(x)
        } else if kk == 0x65 {
            self.load_registers(x)
        } else {
            Ok(self)
        }
    }

    /// The family `0___`: clear the display, return, or nothing.
    pub open spec fn system(self, op: u16) -> Result<Machine, Fault> {
        if op == 0x00E0 {
            Ok(self.clear_display())
        } else if op == 0x00EE {
            self.subroutine_return()
        } else {
            Ok(self)
        }
    }

    /// The effect of instruction `op` on a state whose program counter has
    /// already moved past it. `random` is the byte that the random
    /// instruction draws.
    pub open spec fn execute(self, op: u16, random: u8) -> Result<Machine, Fault> {
        let x = x_of(op);
        let y = y_of(op);
        let kk = kk_of(op);
        let nnn = nnn_of(op);
        let f = family(op);
        if f == 0x0 {
            self.system(op)
        } else if f == 0x1 {
            Ok(self.with_pc(nnn))
        } else if f == 0x2 {
            self.call(nnn)
        } else if f == 0x3 {
            Ok(self.skip_if(self.v[x] == kk))
        } else if f == 0x4 {
            Ok(self.skip_if(self.v[x] != kk))
        } else if f == 0x5 {
            Ok(self.skip_if(self.v[x] == self.v[y]))
        } else if f == 0x6 {
            Ok(self.with_register(x, kk))
        } else if f == 0x7 {
            Ok(self.add_immediate(x, kk))
        } else if f == 0x8 {
            Ok(self.alu(op))
        } else if f == 0x9 {
            Ok(self.skip_if(self.v[x] != self.v[y]))
        } else if f == 0xA {
            Ok(Machine { i: nnn, ..self })
        } else if f == 0xB {
            Ok(self.with_pc((self.v[0] + nnn) as u16))
        } else if f == 0xC {
            Ok(self.with_register(x, random & kk))
        } else if f == 0xD {
            self.draw_sprite(x, y, n_of(op))
        } else if f == 0xE {
            self.key_test(op)
        } else {
            self.misc(op)
        }
    }

    /// Whether instruction `op` is a skip instruction whose condition holds.
    pub open spec fn skips(self, op: u16) -> bool {
        let x = x_of(op);
        let y = y_of(op);
        let f = family(op);
        ||| f == 0x3 && self.v[x] == kk_of(op)
        ||| f == 0x4 && self.v[x] != kk_of(op)
        ||| f == 0x5 && self.v[x] == self.v[y]
        ||| f == 0x9 && self.v[x] != self.v[y]
        ||| f == 0xE && kk_of(op) == 0x9E && self.v[x] < 16 && self.keys[self.v[x] as int]
        ||| f == 0xE && kk_of(op) == 0xA1 && self.v[x] < 16 && !self.keys[self.v[x] as int]
    }

    /// Whether instruction `op` is a key wait that finds no key held.
    pub open spec fn waits(self, op: u16) -> bool {
        family(op) == 0xF && kk_of(op) == 0x0A && first_pressed(self.keys, 0) is None
    }

    /// The program counter is even and inside memory.
    pub open spec fn aligned(self) -> bool {
        self.pc % 2 == 0 && self.pc < 4096
    }

    /// Whether the instruction at the program counter sends control to an
    /// odd address or out of memory: a jump or call to an odd address, an
    /// indexed jump or a return to an odd address or past the end, or an
    /// instruction so close to the end of memory that the next one, or the
    /// one after a skip, lies outside.
    pub open spec fn strays(self) -> bool {
        let op = self.fetch()->Ok_0;
        let f = family(op);
        if f == 0x1 || f == 0x2 {
            nnn_of(op) % 2 == 1
        } else if f == 0xB {
            (self.v[0] + nnn_of(op)) % 2 == 1 || self.v[0] + nnn_of(op) >= 4096
        } else if op == 0x00EE {
            self.stack.len() > 0 && (self.stack.last() % 2 == 1 || self.stack.last() >= 4096)
        } else if self.skips(op) {
            self.pc + 4 >= 4096
        } else if self.waits(op) {
            false
        } else {
            self.pc + 2 >= 4096
        }
    }

    /// The state after one cycle for each byte of `randoms`, in order, or
    /// the first fault on the way.
    pub open spec fn run(self, randoms: Seq<u8>) -> Result<Machine, Fault>
        decreases randoms.len(),
    {
        if randoms.len() == 0 {
            Ok(self)
        } else {
            match self.run(randoms.drop_last()) {
                Ok(state) => state.step(randoms.last()),
                Err(fault) => Err(fault),
            }
        }
    }

    /// Whether no cycle of the run over `randoms` starts in a state that
    /// strays.
    pub open spec fn keeps_course(self, randoms: Seq<u8>) -> bool {
        forall|k: int|
            0 <= k < randoms.len() ==> match #[trigger] self.run(randoms.take(k)) {
                Ok(state) => !state.strays(),
                Err(_) => true,
            }
    }

    /// One cycle: fetch, move the program counter on, execute, count the
    /// timer down. A fault leaves no trace: the cycle did not happen.
    pub open spec fn step(self, random: u8) -> Result<Machine, Fault> {
        match self.fetch() {
            Err(fault) => Err(fault),
            Ok(op) => match self.advance().execute(op, random) {
                Err(fault) => Err(fault),
                Ok(next) => Ok(next.tick()),
            },
        }
    }
}

/// How an operation that was to compute `expected` from `before` ended: with
/// success and the computed state, or with the fault and the state untouched.
pub open spec fn outcome(
    expected: Result<Machine, Fault>,
    before: Machine,
    after: Machine,
    res: Result<(), Fault>,
) -> bool {
    match res {
        Ok(_) => expected == Ok::<Machine, Fault>(after),
        Err(fault) => expected == Err::<Machine, Fault>(fault) && after == before,
    }
}

} // verus!
