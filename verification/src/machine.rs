//! The mathematical model of the console: its state and the effect of every
//! instruction and of a whole cycle on it. The executable console is held
//! to this model.

use vstd::prelude::*;
use crate::display::{blank, Sprite, BUFF_HEIGHT, BUFF_SIZE, BUFF_WIDTH};
use crate::font::{font_byte, FONT_ADDR};
use crate::instructions::Instr;

verus! {

/// Total size of the memory
pub const MEM_SIZE: usize = 4096;

/// Address at which programs are loaded and start to run
pub const PROGRAM_START: u16 = 0x200;

/// Number of general registers, and of keys
pub const REGISTER_COUNT: usize = 16;

/// Index of the flag register VF
pub const FLAG: usize = 0xF;

/// Which of two historical behaviours an instruction follows.
#[derive(Debug, Clone, Copy, PartialEq, Eq, Structural)]
pub enum Behavior {
    /// The behaviour of later interpreters
    Modern,
    /// The behaviour of the first interpreter
    Legacy,
}

/// The choices between historical behaviours, fixed when a console is made.
#[derive(Debug, Clone, Copy, PartialEq, Eq, Structural)]
pub struct Quirks {
    /// Shifts: `Modern` shifts VX in place, `Legacy` shifts VY into VX
    pub shift: Behavior,
    /// Jump with offset: `Modern` adds VX, `Legacy` adds V0
    pub jump: Behavior,
    /// Block transfers: `Modern` leaves I unchanged, `Legacy` advances it
    /// past the last byte transferred
    pub block_transfer: Behavior,
}

/// Why a cycle cannot run.
#[derive(Debug, Clone, Copy, PartialEq, Eq, Structural)]
pub enum Fault {
    /// The program counter or the index register points outside the memory
    MemoryOutOfRange,
    /// A return with an empty call stack
    StackUnderflow,
    /// A key instruction names a key above 0xF
    KeyOutOfRange,
    /// Adding to the index register leaves its sixteen bits
    IndexOverflow,
}

/// The state of a console as mathematical values.
#[verifier::ext_equal]
pub struct State {
    /// The bytes of the memory
    pub memory: Seq<u8>,
    /// The pixels of the display, row by row
    pub display: Seq<bool>,
    /// Program counter
    pub pc: u16,
    /// I register
    pub i: u16,
    /// Call stack, the most recent return address last
    pub stack: Seq<u16>,
    /// Delay timer
    pub delay_timer: u8,
    /// Sound timer
    pub sound_timer: u8,
    /// Registers V0 to VF
    pub v: Seq<u8>,
    /// Keys: true if they are down, false if they are up
    pub keys: Seq<bool>,
    /// The historical behaviours chosen
    pub quirks: Quirks,
}

impl Quirks {
    /// The standard choice: shifts in place, jumps offset by V0, block
    /// transfers that leave I unchanged.
    pub open spec fn standard() -> Quirks {
        Quirks {
            shift: Behavior::Modern,
            jump: Behavior::Legacy,
            block_transfer: Behavior::Modern,
        }
    }

    /// The standard choice of behaviours.
    pub fn new() -> (quirks: Quirks)
        ensures
            quirks == Quirks::standard(),
    {
        Quirks {
            shift: Behavior::Modern,
            jump: Behavior::Legacy,
            block_transfer: Behavior::Modern,
        }
    }
}

/// The byte that a fresh console holds at `addr`: the font from its base
/// address on, zero elsewhere.
pub open spec fn initial_byte(addr: int) -> u8 {
    if FONT_ADDR <= addr < FONT_ADDR + 80 {
        font_byte(addr - FONT_ADDR)
    } else {
        0
    }
}

/// The decimal digit of `value` at `place` (1, 10 or 100).
pub open spec fn decimal_digit(value: u8, place: int) -> u8 {
    ((value as int / place) % 10) as u8
}

impl State {
    /// Every part has its fixed size.
    pub open spec fn wf(self) -> bool {
        &&& self.memory.len() == MEM_SIZE
        &&& self.display.len() == BUFF_SIZE
        &&& self.v.len() == REGISTER_COUNT
        &&& self.keys.len() == REGISTER_COUNT
    }

    /// A fresh console: font installed, everything else zero, the program
    /// counter at the start of the program area.
    pub open spec fn initial(quirks: Quirks) -> State {
        State {
            memory: Seq::new(MEM_SIZE as nat, |a: int| initial_byte(a)),
            display: blank(),
            pc: PROGRAM_START,
            i: 0,
            stack: Seq::empty(),
            delay_timer: 0,
            sound_timer: 0,
            v: Seq::new(REGISTER_COUNT as nat, |r: int| 0u8),
            keys: Seq::new(REGISTER_COUNT as nat, |k: int| false),
            quirks,
        }
    }

    /// The state with the font copied into the memory from the font's base
    /// address on.
    pub open spec fn with_font(self) -> State {
        State {
            memory: Seq::new(
                MEM_SIZE as nat,
                |a: int|
                    if FONT_ADDR <= a < FONT_ADDR + 80 {
                        font_byte(a - FONT_ADDR)
                    } else {
                        self.memory[a]
                    },
            ),
            ..self
        }
    }

    /// The state with `rom` copied into the memory from the start of the
    /// program area on.
    pub open spec fn with_rom(self, rom: Seq<u8>) -> State {
        State {
            memory: Seq::new(
                MEM_SIZE as nat,
                |a: int|
                    if PROGRAM_START <= a < PROGRAM_START + rom.len() {
                        rom[a - PROGRAM_START]
                    } else {
                        self.memory[a]
                    },
            ),
            ..self
        }
    }

    /// The state with key `index` down or up.
    pub open spec fn with_key(self, index: int, down: bool) -> State {
        State { keys: self.keys.update(index, down), ..self }
    }

    /// The state with register `x` set to `value`.
    pub open spec fn with_register(self, x: int, value: u8) -> State {
        State { v: self.v.update(x, value), ..self }
    }

    /// The state with the program counter moved on by one instruction if
    /// `condition` holds.
    pub open spec fn skip_if(self, condition: bool) -> State {
        if condition {
            self.with_pc((self.pc + 2) as u16)
        } else {
            self
        }
    }

    /// The pixel at column `x` of row `y`.
    pub open spec fn pixel(self, x: int, y: int) -> bool {
        self.display[x + y * BUFF_WIDTH]
    }

    /// The instruction word at the program counter, high byte first.
    pub open spec fn fetch(self) -> u16 {
        (self.memory[self.pc as int] * 256 + self.memory[self.pc + 1]) as u16
    }

    /// The sprite that `DRW(x, y, n)` draws: `n` rows read from address I on,
    /// placed at the two coordinate registers reduced to the display's size.
    pub open spec fn sprite(self, x: u8, y: u8, n: u8) -> Sprite {
        Sprite {
            memory: self.memory,
            base: self.i as int,
            rows: n as int,
            x0: self.v[x as int] as int % (BUFF_WIDTH as int),
            y0: self.v[y as int] as int % (BUFF_HEIGHT as int),
        }
    }

    /// The value that a shift works on.
    pub open spec fn shift_source(self, x: u8, y: u8) -> u8 {
        match self.quirks.shift {
            Behavior::Modern => self.v[x as int],
            Behavior::Legacy => self.v[y as int],
        }
    }

    /// The offset that a jump with offset adds to its address.
    pub open spec fn jump_offset(self, x: u8) -> u8 {
        match self.quirks.jump {
            Behavior::Modern => self.v[x as int],
            Behavior::Legacy => self.v[0],
        }
    }

    /// The index register after a block transfer of registers V0 to VX.
    pub open spec fn index_after_transfer(self, x: u8) -> u16 {
        match self.quirks.block_transfer {
            Behavior::Modern => self.i,
            Behavior::Legacy => (self.i + x + 1) as u16,
        }
    }

    /// The state with every pixel of the display off.
    pub open spec fn clear(self) -> State {
        State { display: blank(), ..self }
    }

    /// The state after the sprite of `DRW(x, y, n)` was drawn: the display
    /// with every pixel under a set bit of the sprite flipped, and VF 1 if
    /// one of them was on before, 0 if none was.
    #[verifier::opaque]
    pub open spec fn draw(self, x: u8, y: u8, n: u8) -> State {
        let sprite = self.sprite(x, y, n);
        State {
            display: sprite.drawn_on(self.display),
            v: self.v.update(
                FLAG as int,
                if sprite.collides_with(self.display) {
                    1
                } else {
                    0
                },
            ),
            ..self
        }
    }

    /// The state after the decimal digits of register `x` were stored at
    /// addresses I, I + 1 and I + 2: hundreds, tens, ones.
    pub open spec fn store_bcd(self, x: u8) -> State {
        let value = self.v[x as int];
        State {
            memory: self.memory.update(self.i as int, decimal_digit(value, 100)).update(
                self.i + 1,
                decimal_digit(value, 10),
            ).update(self.i + 2, decimal_digit(value, 1)),
            ..self
        }
    }

    /// The state after registers V0 to VX were stored in the memory from
    /// address I on.
    #[verifier::opaque]
    pub open spec fn store_registers(self, x: u8) -> State {
        State {
            memory: Seq::new(
                MEM_SIZE as nat,
                |a: int|
                    if self.i <= a <= self.i + x {
                        self.v[a - self.i]
                    } else {
                        self.memory[a]
                    },
            ),
            i: self.index_after_transfer(x),
            ..self
        }
    }

    /// The state after registers V0 to VX were loaded from the memory from
    /// address I on.
    #[verifier::opaque]
    pub open spec fn load_registers(self, x: u8) -> State {
        State {
            v: Seq::new(
                REGISTER_COUNT as nat,
                |r: int|
                    if r <= x {
                        self.memory[self.i + r]
                    } else {
                        self.v[r]
                    },
            ),
            i: self.index_after_transfer(x),
            ..self
        }
    }

    /// The state with the program counter at `target`.
    pub open spec fn with_pc(self, target: u16) -> State {
        State { pc: target, ..self }
    }

    /// The state with the I register at `value`.
    pub open spec fn with_index(self, value: u16) -> State {
        State { i: value, ..self }
    }

    /// The state with the delay timer at `value`.
    pub open spec fn with_delay_timer(self, value: u8) -> State {
        State { delay_timer: value, ..self }
    }

    /// The state with the sound timer at `value`.
    pub open spec fn with_sound_timer(self, value: u8) -> State {
        State { sound_timer: value, ..self }
    }

    /// The state after a call of the subroutine at `target`: the program
    /// counter, which stands behind the call, is pushed on the call stack.
    pub open spec fn call(self, target: u16) -> State {
        State { pc: target, stack: self.stack.push(self.pc), ..self }
    }

    /// The state after a return: the program counter is the address that was
    /// pushed last, which leaves the call stack.
    pub open spec fn ret(self) -> State {
        State { pc: self.stack.last(), stack: self.stack.drop_last(), ..self }
    }

    /// The state after `nn` was added to register `x`, modulo 256. VF is not
    /// touched.
    pub open spec fn add_immediate(self, x: u8, nn: u8) -> State {
        self.with_register(x as int, ((self.v[x as int] + nn) % 256) as u8)
    }

    /// The state after register `y` was added to register `x`: the sum
    /// modulo 256 goes to VX, then VF becomes 1 if the sum is above 255 and 0
    /// if it is not.
    pub open spec fn add_registers(self, x: u8, y: u8) -> State {
        let sum = self.v[x as int] + self.v[y as int];
        self.with_register(x as int, (sum % 256) as u8).with_register(
            FLAG as int,
            if sum > 255 {
                1
            } else {
                0
            },
        )
    }

    /// The state after register `y` was subtracted from register `x`: VF
    /// becomes 1 if nothing is borrowed (VX is not below VY) and 0 if
    /// something is, then the difference modulo 256 goes to VX.
    pub open spec fn subtract(self, x: u8, y: u8) -> State {
        let minuend = self.v[x as int];
        let subtrahend = self.v[y as int];
        self.with_register(
            FLAG as int,
            if minuend >= subtrahend {
                1
            } else {
                0
            },
        ).with_register(x as int, ((minuend - subtrahend) % 256) as u8)
    }

    /// The state after register `x` was subtracted from register `y`: VF
    /// becomes 1 if nothing is borrowed (VY is not below VX) and 0 if
    /// something is, then the difference modulo 256 goes to VX.
    pub open spec fn subtract_reversed(self, x: u8, y: u8) -> State {
        let minuend = self.v[y as int];
        let subtrahend = self.v[x as int];
        self.with_register(
            FLAG as int,
            if minuend >= subtrahend {
                1
            } else {
                0
            },
        ).with_register(x as int, ((minuend - subtrahend) % 256) as u8)
    }

    /// The state after a shift to the right: VF becomes the lowest bit of
    /// the value shifted, then half the value goes to VX.
    pub open spec fn shift_right(self, x: u8, y: u8) -> State {
        let source = self.shift_source(x, y);
        self.with_register(FLAG as int, source % 2).with_register(x as int, source / 2)
    }

    /// The state after a shift to the left: VF becomes the highest bit of
    /// the value shifted, then twice the value, modulo 256, goes to VX.
    pub open spec fn shift_left(self, x: u8, y: u8) -> State {
        let source = self.shift_source(x, y);
        self.with_register(FLAG as int, source / 128).with_register(
            x as int,
            ((source * 2) % 256) as u8,
        )
    }

    /// The state after a key-wait on the key that register `x` names: if the
    /// key is up, the program counter goes back to the key-wait.
    pub open spec fn wait_key(self, x: u8) -> State {
        if self.keys[self.v[x as int] as int] {
            self
        } else {
            self.with_pc((self.pc - 2) as u16)
        }
    }

    /// The state after register `x` was added to I; VF becomes 1 if I then
    /// lies above 0x1000, and is left as it is otherwise.
    pub open spec fn add_to_index(self, x: u8) -> State {
        let sum = self.i + self.v[x as int];
        if sum > 0x1000 {
            self.with_index(sum as u16).with_register(FLAG as int, 1)
        } else {
            self.with_index(sum as u16)
        }
    }

    /// The state after `instr` was executed, the program counter standing
    /// behind the instruction already. `random` is the byte that the random
    /// instruction draws; no other instruction looks at it.
    ///
    /// Where an instruction writes both a result and the flag register, both
    /// are computed from the registers as they were before the instruction.
    /// If VX is VF itself, the later of the two writes stays.
    pub open spec fn exec(self, instr: Instr, random: u8) -> State {
        match instr {
            Instr::CLS => self.clear(),
            Instr::RET => self.ret(),
            Instr::JP(nnn) => self.with_pc(nnn),
            Instr::CALL(nnn) => self.call(nnn),
            Instr::SE(x, nn) => self.skip_if(self.v[x as int] == nn),
            Instr::SNE(x, nn) => self.skip_if(self.v[x as int] != nn),
            Instr::SEV(x, y) => self.skip_if(self.v[x as int] == self.v[y as int]),
            Instr::LD(x, nn) => self.with_register(x as int, nn),
            Instr::ADD(x, nn) => self.add_immediate(x, nn),
            Instr::LDV(x, y) => self.with_register(x as int, self.v[y as int]),
            Instr::OR(x, y) => self.with_register(x as int, self.v[x as int] | self.v[y as int]),
            Instr::AND(x, y) => self.with_register(x as int, self.v[x as int] & self.v[y as int]),
            Instr::XOR(x, y) => self.with_register(x as int, self.v[x as int] ^ self.v[y as int]),
            Instr::ADDV(x, y) => self.add_registers(x, y),
            Instr::SUB(x, y) => self.subtract(x, y),
            Instr::SHR(x, y) => self.shift_right(x, y),
            Instr::SUBN(x, y) => self.subtract_reversed(x, y),
            Instr::SHL(x, y) => self.shift_left(x, y),
            Instr::SNEV(x, y) => self.skip_if(self.v[x as int] != self.v[y as int]),
            Instr::LDI(nnn) => self.with_index(nnn),
            Instr::JPV(x, nnn) => self.with_pc((nnn + self.jump_offset(x)) as u16),
            Instr::RND(x, nn) => self.with_register(x as int, random & nn),
            Instr::DRW(x, y, n) => self.draw(x, y, n),
            Instr::SKP(x) => self.skip_if(self.keys[self.v[x as int] as int]),
            Instr::SKNP(x) => self.skip_if(!self.keys[self.v[x as int] as int]),
            Instr::LDXT(x) => self.with_register(x as int, self.delay_timer),
            Instr::LDK(x) => self.wait_key(x),
            Instr::LDTX(x) => self.with_delay_timer(self.v[x as int]),
            Instr::LDS(x) => self.with_sound_timer(self.v[x as int]),
            Instr::ADDI(x) => self.add_to_index(x),
            Instr::LDF(x) => self.with_index((FONT_ADDR + 5 * self.v[x as int]) as u16),
            Instr::LDB(x) => self.store_bcd(x),
            Instr::LDIX(x) => self.store_registers(x),
            Instr::LDXI(x) => self.load_registers(x),
            Instr::NIL => self,
        }
    }

    /// Why `instr` cannot be executed in this state, if it cannot.
    pub open spec fn exec_fault(self, instr: Instr) -> Option<Fault> {
        match instr {
            Instr::RET => if self.stack.len() == 0 {
                Some(Fault::StackUnderflow)
            } else {
                None
            },
            Instr::DRW(x, y, n) => {
                let rows = self.sprite(x, y, n).visible_rows();
                if self.i + rows > MEM_SIZE {
                    Some(Fault::MemoryOutOfRange)
                } else {
                    None
                }
            },
            Instr::SKP(x) | Instr::SKNP(x) | Instr::LDK(x) => if self.v[x as int]
                >= REGISTER_COUNT {
                Some(Fault::KeyOutOfRange)
            } else {
                None
            },
            Instr::ADDI(x) => if self.i + self.v[x as int] > u16::MAX {
                Some(Fault::IndexOverflow)
            } else {
                None
            },
            Instr::LDB(_) => if self.i + 2 >= MEM_SIZE {
                Some(Fault::MemoryOutOfRange)
            } else {
                None
            },
            Instr::LDIX(x) | Instr::LDXI(x) => if self.i + x >= MEM_SIZE {
                Some(Fault::MemoryOutOfRange)
            } else {
                None
            },
            _ => None,
        }
    }

    /// The instruction at the program counter.
    pub open spec fn next_instr(self) -> Instr {
        Instr::spec_decode(self.fetch())
    }

    /// Why the next cycle cannot run, if it cannot: the instruction cannot be
    /// fetched, or it cannot be executed.
    pub open spec fn fault(self) -> Option<Fault> {
        if self.pc + 1 >= MEM_SIZE {
            Some(Fault::MemoryOutOfRange)
        } else {
            self.exec_fault(self.next_instr())
        }
    }

    /// The state with the program counter behind the instruction fetched.
    pub open spec fn advance(self) -> State {
        self.with_pc((self.pc + 2) as u16)
    }

    /// The state with both timers one step nearer to zero.
    pub open spec fn tick(self) -> State {
        State {
            delay_timer: if self.delay_timer > 0 {
                (self.delay_timer - 1) as u8
            } else {
                0
            },
            sound_timer: if self.sound_timer > 0 {
                (self.sound_timer - 1) as u8
            } else {
                0
            },
            ..self
        }
    }

    /// The state after one cycle: fetch, advance, execute, tick.
    pub open spec fn step(self, random: u8) -> State {
        self.advance().exec(self.next_instr(), random).tick()
    }

    /// The state after one cycle for each byte of `randoms`, in their order:
    /// the byte is the one that the cycle's random instruction draws.
    pub open spec fn run(self, randoms: Seq<u8>) -> State
        decreases randoms.len(),
    {
        if randoms.len() == 0 {
            self
        } else {
            self.run(randoms.drop_last()).step(randoms.last())
        }
    }

    /// Whether the next cycle writes the display, so that it has to be shown
    /// again: it clears the display or draws a sprite.
    pub open spec fn redraws(self) -> bool {
        self.next_instr() is CLS || self.next_instr() is DRW
    }
}

} // verus!
