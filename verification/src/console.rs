//! The console: the executable state machine.

use vstd::prelude::*;
use rand::rngs::ThreadRng;
use crate::display::{column_of, row_of, BUFF_HEIGHT, BUFF_SIZE, BUFF_WIDTH};
use crate::font::{digit_addr, font_byte, FONT, FONT_ADDR};
use crate::instructions::Instr;
use crate::machine::{Behavior, Fault, Quirks, State, MEM_SIZE, PROGRAM_START};
use crate::random::{sample_range, thread_generator};

verus! {

/// Struct containing the variables of a chip-8 console
pub struct Console {
    /// Array of the bytes of the memory
    memory: [u8; MEM_SIZE],
    /// Buffer (display bits) of the console
    buffer: [bool; BUFF_SIZE],
    /// Program counter
    pc: u16,
    /// I register
    i: u16,
    /// Stack
    stack: Vec<u16>,
    /// Delay timer
    delay_timer: u8,
    /// Sound timer
    sound_timer: u8,
    /// Registers
    v: [u8; 16],
    /// Keys of the console
    /// True if they are down, false if they are up
    keys: [bool; 16],
    /// The historical behaviours chosen
    quirks: Quirks,
    /// Random number generator
    rng: ThreadRng,
}

/// Why a ROM was not loaded.
#[derive(Debug, Clone, Copy, PartialEq, Eq, Structural)]
pub enum LoadError {
    /// The ROM does not fit into the memory behind the start of the program
    /// area
    TooLarge,
}

impl View for Console {
    type V = State;

    closed spec fn view(&self) -> State {
        State {
            memory: self.memory@,
            display: self.buffer@,
            pc: self.pc,
            i: self.i,
            stack: self.stack@,
            delay_timer: self.delay_timer,
            sound_timer: self.sound_timer,
            v: self.v@,
            keys: self.keys@,
            quirks: self.quirks,
        }
    }
}

impl Console {
    /// The parts of a console have their fixed sizes, whatever it went
    /// through.
    pub proof fn view_wf(&self)
        ensures
            self@.wf(),
    {
    }

    /// Creates a new console
    pub fn new() -> (cons: Console)
        ensures
            cons@ == State::initial(Quirks::standard()),
    {
        Console::with_quirks(Quirks::new())
    }

    /// Creates a new console that follows the given historical behaviours
    pub fn with_quirks(quirks: Quirks) -> (cons: Console)
        ensures
            cons@ == State::initial(quirks),
    {
        let mut cons = Console {
            memory: [0; MEM_SIZE],
            buffer: [false; BUFF_SIZE],
            pc: PROGRAM_START,
            i: 0,
            stack: Vec::new(),
            delay_timer: 0,
            sound_timer: 0,
            v: [0; 16],
            keys: [false; 16],
            quirks,
            rng: thread_generator(),
        };

        cons.put_font();
        assert(cons@ =~= State::initial(quirks));

        cons
    }

    /// Gets the value of the bit in the buffer at position (x, y)
    pub fn get_bit(&self, x: usize, y: usize) -> (bit: bool)
        requires
            x + y * BUFF_WIDTH < BUFF_SIZE,
        ensures
            bit == self@.pixel(x as int, y as int),
    {
        self.buffer[x + y * BUFF_WIDTH]
    }

    /// Loads a ROM into the console: its bytes are copied into the memory
    /// from the start of the program area on. A ROM that does not fit into
    /// the memory behind that address is refused, and nothing changes.
    pub fn load_rom(&mut self, rom: &[u8]) -> (loaded: Result<(), LoadError>)
        ensures
            loaded is Ok <==> PROGRAM_START + rom@.len() <= MEM_SIZE,
            loaded is Ok ==> final(self)@ == old(self)@.with_rom(rom@),
            loaded is Err ==> final(self)@ == old(self)@,
            loaded is Err ==> loaded == Err::<(), LoadError>(LoadError::TooLarge),
    {
        if rom.len() > MEM_SIZE - 0x200 {
            return Err(LoadError::TooLarge);
        }
        let mut k: usize = 0;
        while k < rom.len()
            invariant
                k <= rom@.len(),
                PROGRAM_START + rom@.len() <= MEM_SIZE,
                self@ == (State { memory: self.memory@, ..old(self)@ }),
                forall|a: int|
                    0 <= a < MEM_SIZE ==> self.memory@[a] == (if PROGRAM_START <= a
                        < PROGRAM_START + k {
                        rom@[a - PROGRAM_START]
                    } else {
                        old(self).memory@[a]
                    }),
            decreases rom@.len() - k,
        {
            self.memory[k + 0x200] = rom[k];
            k += 1;
        }
        assert(self@ =~= old(self)@.with_rom(rom@));
        Ok(())
    }

    /// Puts the font into the memory
    fn put_font(&mut self)
        ensures
            final(self)@ == old(self)@.with_font(),
    {
        let mut mem_index = FONT_ADDR as usize;
        let mut digit: usize = 0;

        while digit < 16
            invariant
                digit <= 16,
                mem_index == FONT_ADDR + 5 * digit,
                forall|a: int|
                    0 <= a < MEM_SIZE ==> self.memory@[a] == (if FONT_ADDR <= a < mem_index {
                        font_byte(a - FONT_ADDR)
                    } else {
                        old(self).memory@[a]
                    }),
                self@ == (State { memory: self.memory@, ..old(self)@ }),
            decreases 16 - digit,
        {
            let mut row: usize = 0;
            while row < 5
                invariant
                    digit < 16,
                    row <= 5,
                    mem_index == FONT_ADDR + 5 * digit + row,
                    forall|a: int|
                        0 <= a < MEM_SIZE ==> self.memory@[a] == (if FONT_ADDR <= a < mem_index {
                            font_byte(a - FONT_ADDR)
                        } else {
                            old(self).memory@[a]
                        }),
                    self@ == (State { memory: self.memory@, ..old(self)@ }),
                decreases 5 - row,
            {
                self.memory[mem_index] = FONT[digit][row];
                mem_index += 1;
                row += 1;
            }
            digit += 1;
        }
        assert(self@ =~= old(self)@.with_font());
    }

    /// XORs the bit at position (x,y) in the buffer with the given argument
    fn xor_bit(&mut self, x: usize, y: usize, bit: bool)
        requires
            x + y * BUFF_WIDTH < BUFF_SIZE,
        ensures
            final(self)@ == (State {
                display: old(self)@.display.update(
                    x + y * BUFF_WIDTH,
                    old(self)@.pixel(x as int, y as int) != bit,
                ),
                ..old(self)@
            }),
    {
        let bval: bool = self.buffer[x + y * BUFF_WIDTH];
        if bit && !bval || !bit && bval {
            self.buffer[x + y * BUFF_WIDTH] = true;
        } else {
            self.buffer[x + y * BUFF_WIDTH] = false;
        }
    }

    /// Clears the buffer
    fn clear_buffer(&mut self)
        ensures
            final(self)@ == old(self)@.clear(),
    {
        let mut p: usize = 0;
        while p < BUFF_SIZE
            invariant
                p <= BUFF_SIZE,
                self@ == (State { display: self.buffer@, ..old(self)@ }),
                forall|q: int| 0 <= q < p ==> !self.buffer@[q],
            decreases BUFF_SIZE - p,
        {
            self.buffer[p] = false;
            p += 1;
        }
        assert(self@ =~= old(self)@.clear());
    }

    /// Sets a given key
    pub fn set_key(&mut self, index: usize, down: bool)
        requires
            index < 16,
        ensures
            final(self)@ == old(self)@.with_key(index as int, down),
    {
        self.keys[index] = down;
    }

    /// Why the next cycle cannot run, if it cannot. Where this is `None`,
    /// `cycle` and `cycle_with` may be called.
    pub fn fault(&self) -> (fault: Option<Fault>)
        ensures
            fault == self@.fault(),
    {
        if self.pc as usize + 1 >= MEM_SIZE {
            return Some(Fault::MemoryOutOfRange);
        }
        match Instr::decode(self.next_word()) {
            Instr::RET => {
                if self.stack.len() == 0 {
                    Some(Fault::StackUnderflow)
                } else {
                    None
                }
            },
            Instr::DRW(_, y, n) => {
                let y_coord = (self.v[y as usize] as usize) % BUFF_HEIGHT;
                let rows = if y_coord + n as usize <= BUFF_HEIGHT {
                    n as usize
                } else {
                    BUFF_HEIGHT - y_coord
                };
                if self.i as usize + rows > MEM_SIZE {
                    Some(Fault::MemoryOutOfRange)
                } else {
                    None
                }
            },
            Instr::SKP(x) | Instr::SKNP(x) | Instr::LDK(x) => {
                if self.v[x as usize] >= 16 {
                    Some(Fault::KeyOutOfRange)
                } else {
                    None
                }
            },
            Instr::ADDI(x) => {
                if self.v[x as usize] as u16 > u16::MAX - self.i {
                    Some(Fault::IndexOverflow)
                } else {
                    None
                }
            },
            Instr::LDB(_) => {
                if self.i as usize + 2 >= MEM_SIZE {
                    Some(Fault::MemoryOutOfRange)
                } else {
                    None
                }
            },
            Instr::LDIX(x) | Instr::LDXI(x) => {
                if self.i as usize + x as usize >= MEM_SIZE {
                    Some(Fault::MemoryOutOfRange)
                } else {
                    None
                }
            },
            _ => None,
        }
    }

    /// Goes through a cycle (fetch, decode, execute), then moves both timers
    /// one step towards zero. The random instruction draws its byte from the
    /// console's generator.
    /// Returns whether the buffer has to be drawn again and whether the
    /// sound is on.
    pub fn cycle(&mut self) -> (hints: (bool, bool))
        requires
            old(self)@.fault() is None,
        ensures
            exists|random: u8| final(self)@ == #[trigger] old(self)@.step(random),
            !(old(self)@.next_instr() is RND) ==> final(self)@ == old(self)@.step(0),
            hints.0 == old(self)@.redraws(),
            hints.1 == (final(self)@.sound_timer > 0),
    {
        let instr_enc = self.fetch();
        let instr_dec = Instr::decode(instr_enc);

        let random = match instr_dec {
            Instr::RND(_, _) => self.random_byte(),
            _ => 0,
        };
        let hints = self.finish(instr_dec, random);
        assert(self@ == old(self)@.step(random));
        hints
    }

    /// Goes through a cycle as `cycle` does, with `random` as the byte that
    /// the random instruction draws.
    pub fn cycle_with(&mut self, random: u8) -> (hints: (bool, bool))
        requires
            old(self)@.fault() is None,
        ensures
            final(self)@ == old(self)@.step(random),
            hints.0 == old(self)@.redraws(),
            hints.1 == (final(self)@.sound_timer > 0),
    {
        let instr_enc = self.fetch();
        let instr_dec = Instr::decode(instr_enc);

        self.finish(instr_dec, random)
    }

    /// The program counter
    pub fn pc(&self) -> (pc: u16)
        ensures
            pc == self@.pc,
    {
        self.pc
    }

    /// The I register
    pub fn index(&self) -> (i: u16)
        ensures
            i == self@.i,
    {
        self.i
    }

    /// The value of register `x`
    pub fn register(&self, x: usize) -> (value: u8)
        requires
            x < 16,
        ensures
            value == self@.v[x as int],
    {
        self.v[x]
    }

    /// The delay timer
    pub fn delay_timer(&self) -> (timer: u8)
        ensures
            timer == self@.delay_timer,
    {
        self.delay_timer
    }

    /// The sound timer
    pub fn sound_timer(&self) -> (timer: u8)
        ensures
            timer == self@.sound_timer,
    {
        self.sound_timer
    }

    /// The byte of the memory at `addr`
    pub fn read_memory(&self, addr: usize) -> (byte: u8)
        requires
            addr < MEM_SIZE,
        ensures
            byte == self@.memory[addr as int],
    {
        self.memory[addr]
    }

    /// The return addresses on the call stack, the most recent last
    pub fn stack(&self) -> (stack: &Vec<u16>)
        ensures
            stack@ == self@.stack,
    {
        &self.stack
    }

    /// Whether key `index` is down
    pub fn is_key_down(&self, index: usize) -> (down: bool)
        requires
            index < 16,
        ensures
            down == self@.keys[index as int],
    {
        self.keys[index]
    }

    /// The historical behaviours that the console follows
    pub fn quirks(&self) -> (quirks: Quirks)
        ensures
            quirks == self@.quirks,
    {
        self.quirks
    }

    /// The instruction word at the program counter
    pub fn next_word(&self) -> (word: u16)
        requires
            self@.pc + 1 < MEM_SIZE,
        ensures
            word == self@.fetch(),
    {
        let pcu = self.pc as usize;
        let b0 = self.memory[pcu] as u16;
        let b1 = self.memory[pcu + 1] as u16;
        assert((b0 << 8) | b1 == b0 * 256 + b1) by (bit_vector)
            requires
                b0 < 256,
                b1 < 256,
        ;

        (b0 << 8) | b1
    }

    /// Fetches the next instruction (not decoded)
    fn fetch(&mut self) -> (word: u16)
        requires
            old(self)@.pc + 1 < MEM_SIZE,
        ensures
            word == old(self)@.fetch(),
            final(self)@ == old(self)@.advance(),
    {
        let word = self.next_word();
        self.pc += 2;

        word
    }

    /// Executes the instruction fetched and decrements the counters
    fn finish(&mut self, instr: Instr, random: u8) -> (hints: (bool, bool))
        requires
            instr.well_formed(),
            old(self)@.exec_fault(instr) is None,
            2 <= old(self)@.pc <= MEM_SIZE,
        ensures
            final(self)@ == old(self)@.exec(instr, random).tick(),
            hints.0 == (instr is CLS || instr is DRW),
            hints.1 == (final(self)@.sound_timer > 0),
    {
        let draw = self.execute(instr, random);

        // Decrement counters
        if self.delay_timer > 0 {
            self.delay_timer -= 1;
        }
        if self.sound_timer > 0 {
            self.sound_timer -= 1;
        }

        (draw, self.sound_timer > 0)
    }

    /// Draws a byte from the generator
    fn random_byte(&mut self) -> (byte: u8)
        ensures
            final(self)@ == old(self)@,
    {
        let nbr = sample_range(&mut self.rng, 0, 256);
        nbr as u8
    }

    /// Draws the sprite of `n` rows that starts at address I at the place
    /// that registers `x` and `y` give, and records in VF whether it hit a
    /// pixel that was on.
    fn draw_sprite(&mut self, x: u8, y: u8, n: u8)
        requires
            x < 16,
            y < 16,
            old(self)@.exec_fault(Instr::DRW(x, y, n)) is None,
        ensures
            final(self)@ == old(self)@.draw(x, y, n),
    {
        let x_coord = (self.v[x as usize] as usize) % BUFF_WIDTH;
        let y_coord = (self.v[y as usize] as usize) % BUFF_HEIGHT;
        let ghost sprite = self@.sprite(x, y, n);
        let ghost before = self@.display;
        let ghost hit: int = 0;

        self.v[15] = 0;

        let mut i: usize = 0;
        let mut j: usize;
        let mut bt: u8;
        let mut bit: u8;

        while i < (n as usize) && y_coord + i < BUFF_HEIGHT
            invariant
                x_coord < BUFF_WIDTH,
                y_coord < BUFF_HEIGHT,
                i <= n,
                y_coord + i <= BUFF_HEIGHT,
                sprite == old(self)@.sprite(x, y, n),
                sprite.x0 == x_coord,
                sprite.y0 == y_coord,
                before == old(self)@.display,
                old(self).i + sprite.visible_rows() <= MEM_SIZE,
                self@ == (State { display: self.buffer@, v: self.v@, ..old(self)@ }),
                self.v@ == old(self).v@.update(15, self.v@[15]),
                self.v@[15] == 0 || self.v@[15] == 1,
                self.v@[15] == 1 ==> 0 <= hit < BUFF_SIZE && before[hit] && sprite.covers_index(
                    hit,
                ),
                self.v@[15] == 0 ==> forall|p: int|
                    0 <= p < BUFF_SIZE && row_of(p) < y_coord + i ==> !(before[p]
                        && #[trigger] sprite.covers_index(p)),
                forall|p: int|
                    0 <= p < BUFF_SIZE ==> #[trigger] self.buffer@[p] == (if row_of(p) < y_coord + i {
                        before[p] != sprite.covers_index(p)
                    } else {
                        before[p]
                    }),
            decreases n - i,
        {
            bt = self.memory[(self.i as usize) + i];
            j = 0;

            while j < 8 && x_coord + j < BUFF_WIDTH
                invariant
                    x_coord < BUFF_WIDTH,
                    y_coord < BUFF_HEIGHT,
                    i < n,
                    j <= 8,
                    x_coord + j <= BUFF_WIDTH,
                    y_coord + i < BUFF_HEIGHT,
                    sprite == old(self)@.sprite(x, y, n),
                    sprite.x0 == x_coord,
                    sprite.y0 == y_coord,
                    before == old(self)@.display,
                    0 <= sprite.base + i < sprite.memory.len(),
                    bt == sprite.memory[sprite.base + i],
                    self@ == (State { display: self.buffer@, v: self.v@, ..old(self)@ }),
                    self.v@ == old(self).v@.update(15, self.v@[15]),
                    self.v@[15] == 0 || self.v@[15] == 1,
                    self.v@[15] == 1 ==> 0 <= hit < BUFF_SIZE && before[hit]
                        && sprite.covers_index(hit),
                    self.v@[15] == 0 ==> forall|p: int|
                        0 <= p < BUFF_SIZE && (row_of(p) < y_coord + i || (row_of(p) == y_coord + i && column_of(p) < x_coord + j)) ==> !(before[p] && #[trigger] sprite.covers_index(
                            p,
                        )),
                    forall|p: int|
                        0 <= p < BUFF_SIZE ==> #[trigger] self.buffer@[p] == (if row_of(p) < y_coord
                            + i || (row_of(p) == y_coord + i && column_of(p) < x_coord + j) {
                            before[p] != sprite.covers_index(p)
                        } else {
                            before[p]
                        }),
                decreases 8 - j,
            {
                let shift: u8 = 7 - (j as u8);
                bit = (bt >> shift) & 1;
                let ghost q: int = x_coord + j + (y_coord + i) * BUFF_WIDTH;
                assert(row_of(q) == y_coord + i && column_of(q) == x_coord + j);
                assert(sprite.covers_index(q) == (bit == 1));

                if bit == 1 {
                    self.xor_bit(x_coord + j, y_coord + i, true);

                    if !self.get_bit(x_coord + j, y_coord + i) {
                        self.v[15] = 1;
                        proof {
                            hit = q;
                        }
                    }
                }
                j += 1;
            }
            assert forall|p: int| 0 <= p < BUFF_SIZE && row_of(p) == y_coord + i && column_of(p) >= x_coord
                + j implies !#[trigger] sprite.covers_index(p) by {}

            i += 1;
        }
        proof {
            assert forall|p: int| 0 <= p < BUFF_SIZE && row_of(p) >= y_coord + i implies !#[trigger] sprite.covers_index(
                p,
            ) by {}
            assert(self.buffer@ =~= sprite.drawn_on(before));
            if self.v@[15] == 1 {
                assert(sprite.collides_with(before));
            } else {
                assert(!sprite.collides_with(before));
            }
            reveal(State::draw);
            assert(self@ =~= old(self)@.draw(x, y, n));
        }
    }

    /// Stores registers V0 to VX into the memory from address I on
    fn store_registers(&mut self, x: u8)
        requires
            x < 16,
            old(self)@.exec_fault(Instr::LDIX(x)) is None,
        ensures
            final(self)@ == old(self)@.store_registers(x),
    {
        let mut k: usize = 0;
        while k <= x as usize
            invariant
                x < 16,
                k <= x + 1,
                self.i + x < MEM_SIZE,
                self@ == (State { memory: self.memory@, ..old(self)@ }),
                forall|a: int|
                    0 <= a < MEM_SIZE ==> #[trigger] self.memory@[a] == (if self.i <= a < self.i
                        + k {
                        self.v@[a - self.i]
                    } else {
                        old(self).memory@[a]
                    }),
            decreases x + 1 - k,
        {
            self.memory[self.i as usize + k] = self.v[k];
            k += 1;
        }
        if let Behavior::Legacy = self.quirks.block_transfer {
            self.i = self.i + x as u16 + 1;
        }
        proof {
            reveal(State::store_registers);
            assert(self@ =~= old(self)@.store_registers(x));
        }
    }

    /// Loads registers V0 to VX from the memory from address I on
    fn load_registers(&mut self, x: u8)
        requires
            x < 16,
            old(self)@.exec_fault(Instr::LDXI(x)) is None,
        ensures
            final(self)@ == old(self)@.load_registers(x),
    {
        let mut k: usize = 0;
        while k <= x as usize
            invariant
                x < 16,
                k <= x + 1,
                self.i + x < MEM_SIZE,
                self@ == (State { v: self.v@, ..old(self)@ }),
                forall|r: int|
                    0 <= r < 16 ==> #[trigger] self.v@[r] == (if r < k {
                        self.memory@[self.i + r]
                    } else {
                        old(self).v@[r]
                    }),
            decreases x + 1 - k,
        {
            self.v[k] = self.memory[self.i as usize + k];
            k += 1;
        }
        if let Behavior::Legacy = self.quirks.block_transfer {
            self.i = self.i + x as u16 + 1;
        }
        proof {
            reveal(State::load_registers);
            assert(self@ =~= old(self)@.load_registers(x));
        }
    }

    /// Executes the given instruction; `random` is the byte that the random
    /// instruction draws. Returns true if the instruction wrote the buffer.
    fn execute(&mut self, instr: Instr, random: u8) -> (draw: bool)
        requires
            instr.well_formed(),
            old(self)@.exec_fault(instr) is None,
            2 <= old(self)@.pc <= MEM_SIZE,
        ensures
            final(self)@ == old(self)@.exec(instr, random),
            draw == (instr is CLS || instr is DRW),
    {
        let mut draw = false;

        match instr {
            Instr::CLS => {
                draw = true;
                self.clear_buffer();
            },
            Instr::RET => self.ret(),
            Instr::JP(nnn) => self.jump(nnn),
            Instr::CALL(nnn) => self.call(nnn),
            Instr::SE(x, nn) => self.skip_if(self.v[x as usize] == nn),
            Instr::SNE(x, nn) => self.skip_if(self.v[x as usize] != nn),
            Instr::SEV(x, y) => self.skip_if(self.v[x as usize] == self.v[y as usize]),
            Instr::LD(x, nn) => self.set_register(x, nn),
            Instr::ADD(x, nn) => self.add_immediate(x, nn),
            Instr::LDV(x, y) => self.set_register(x, self.v[y as usize]),
            Instr::OR(x, y) => self.set_register(x, self.v[x as usize] | self.v[y as usize]),
            Instr::AND(x, y) => self.set_register(x, self.v[x as usize] & self.v[y as usize]),
            Instr::XOR(x, y) => self.set_register(x, self.v[x as usize] ^ self.v[y as usize]),
            Instr::ADDV(x, y) => self.add_registers(x, y),
            Instr::SUB(x, y) => self.subtract(x, y),
            Instr::SHR(x, y) => self.shift_right(x, y),
            Instr::SUBN(x, y) => self.subtract_reversed(x, y),
            Instr::SHL(x, y) => self.shift_left(x, y),
            Instr::SNEV(x, y) => self.skip_if(self.v[x as usize] != self.v[y as usize]),
            Instr::LDI(nnn) => self.set_index(nnn),
            Instr::JPV(x, nnn) => self.jump(nnn + self.jump_offset(x) as u16),
            Instr::RND(x, nn) => self.set_register(x, random & nn),
            Instr::DRW(x, y, n) => {
                draw = true;
                self.draw_sprite(x, y, n);
            },
            Instr::SKP(x) => self.skip_if(self.keys[self.v[x as usize] as usize]),
            Instr::SKNP(x) => self.skip_if(!self.keys[self.v[x as usize] as usize]),
            Instr::LDXT(x) => self.set_register(x, self.delay_timer),
            Instr::LDK(x) => self.wait_key(x),
            Instr::LDTX(x) => self.set_delay_timer(self.v[x as usize]),
            Instr::LDS(x) => self.set_sound_timer(self.v[x as usize]),
            Instr::ADDI(x) => self.add_to_index(x),
            Instr::LDF(x) => self.set_index(digit_addr(self.v[x as usize])),
            Instr::LDB(x) => self.store_bcd(x),
            Instr::LDIX(x) => self.store_registers(x),
            Instr::LDXI(x) => self.load_registers(x),
            Instr::NIL => (),
        };

        draw
    }

    /// Returns from a subroutine
    fn ret(&mut self)
        requires
            old(self)@.stack.len() > 0,
        ensures
            final(self)@ == old(self)@.ret(),
    {
        let top = self.stack.pop();
        self.pc = top.unwrap();
    }

    /// Jumps to `target`
    fn jump(&mut self, target: u16)
        ensures
            final(self)@ == old(self)@.with_pc(target),
    {
        self.pc = target;
    }

    /// Goes to the subroutine at `target`
    fn call(&mut self, target: u16)
        ensures
            final(self)@ == old(self)@.call(target),
    {
        self.stack.push(self.pc);
        self.pc = target;
    }

    /// Skips the next instruction if `condition` holds
    fn skip_if(&mut self, condition: bool)
        requires
            old(self)@.pc <= MEM_SIZE,
        ensures
            final(self)@ == old(self)@.skip_if(condition),
    {
        if condition {
            self.pc += 2;
        }
    }

    /// Goes back to the key-wait just fetched unless the key that register
    /// `x` names is down
    fn wait_key(&mut self, x: u8)
        requires
            x < 16,
            old(self)@.v[x as int] < 16,
            old(self)@.pc >= 2,
        ensures
            final(self)@ == old(self)@.wait_key(x),
    {
        if !self.keys[self.v[x as usize] as usize] {
            self.pc -= 2;
        }
    }

    /// Sets the I register
    fn set_index(&mut self, value: u16)
        ensures
            final(self)@ == old(self)@.with_index(value),
    {
        self.i = value;
    }

    /// Adds register `x` to the I register
    fn add_to_index(&mut self, x: u8)
        requires
            x < 16,
            old(self)@.i + old(self)@.v[x as int] <= u16::MAX,
        ensures
            final(self)@ == old(self)@.add_to_index(x),
    {
        self.i += self.v[x as usize] as u16;

        if self.i > 0x1000 {
            self.v[0xF] = 1;
        }
    }

    /// Sets the delay timer
    fn set_delay_timer(&mut self, value: u8)
        ensures
            final(self)@ == old(self)@.with_delay_timer(value),
    {
        self.delay_timer = value;
    }

    /// Sets the sound timer
    fn set_sound_timer(&mut self, value: u8)
        ensures
            final(self)@ == old(self)@.with_sound_timer(value),
    {
        self.sound_timer = value;
    }

    /// The offset that a jump with offset adds to its address
    fn jump_offset(&self, x: u8) -> (offset: u8)
        requires
            x < 16,
        ensures
            offset == self@.jump_offset(x),
    {
        match self.quirks.jump {
            Behavior::Modern => self.v[x as usize],
            Behavior::Legacy => self.v[0],
        }
    }

    /// Adds `nn` to register `x`
    fn add_immediate(&mut self, x: u8, nn: u8)
        requires
            x < 16,
        ensures
            final(self)@ == old(self)@.add_immediate(x, nn),
    {
        self.v[x as usize] = self.v[x as usize].wrapping_add(nn);
    }

    /// Adds register `y` to register `x` and records the carry in VF
    fn add_registers(&mut self, x: u8, y: u8)
        requires
            x < 16,
            y < 16,
        ensures
            final(self)@ == old(self)@.add_registers(x, y),
    {
        let added = self.v[x as usize] as u16 + self.v[y as usize] as u16;
        self.v[x as usize] = (added % 256) as u8;

        self.v[0xF] = if added > 255 {
            1
        } else {
            0
        };
    }

    /// Subtracts register `y` from register `x` and records in VF that
    /// nothing was borrowed
    fn subtract(&mut self, x: u8, y: u8)
        requires
            x < 16,
            y < 16,
        ensures
            final(self)@ == old(self)@.subtract(x, y),
    {
        let minuend = self.v[x as usize];
        let subtrahend = self.v[y as usize];
        self.v[0xF] = if minuend >= subtrahend {
            1
        } else {
            0
        };

        self.v[x as usize] = minuend.wrapping_sub(subtrahend);
    }

    /// Stores in register `x` what is left when it is subtracted from
    /// register `y`, and records in VF that nothing was borrowed
    fn subtract_reversed(&mut self, x: u8, y: u8)
        requires
            x < 16,
            y < 16,
        ensures
            final(self)@ == old(self)@.subtract_reversed(x, y),
    {
        let subtrahend = self.v[x as usize];
        let minuend = self.v[y as usize];
        self.v[0xF] = if minuend >= subtrahend {
            1
        } else {
            0
        };

        self.v[x as usize] = minuend.wrapping_sub(subtrahend);
    }

    /// Shifts one bit to the right into register `x` and records the bit
    /// that fell out in VF
    fn shift_right(&mut self, x: u8, y: u8)
        requires
            x < 16,
            y < 16,
        ensures
            final(self)@ == old(self)@.shift_right(x, y),
    {
        let source = self.shift_operand(x, y);
        assert(source & 1 == source % 2 && source >> 1 == source / 2) by (bit_vector);

        self.v[0xF] = source & 1;
        self.v[x as usize] = source >> 1;
    }

    /// Shifts one bit to the left into register `x` and records the bit
    /// that fell out in VF
    fn shift_left(&mut self, x: u8, y: u8)
        requires
            x < 16,
            y < 16,
        ensures
            final(self)@ == old(self)@.shift_left(x, y),
    {
        let source = self.shift_operand(x, y);
        assert(source >> 7 == source / 128 && source << 1 == (source * 2) % 256) by (bit_vector);

        self.v[0xF] = source >> 7;
        self.v[x as usize] = source << 1;
    }

    /// Sets register `x`
    fn set_register(&mut self, x: u8, value: u8)
        requires
            x < 16,
        ensures
            final(self)@ == old(self)@.with_register(x as int, value),
    {
        self.v[x as usize] = value;
    }

    /// Stores the three decimal digits of register `x` at addresses I, I + 1
    /// and I + 2, hundreds first
    fn store_bcd(&mut self, x: u8)
        requires
            x < 16,
            old(self)@.exec_fault(Instr::LDB(x)) is None,
        ensures
            final(self)@ == old(self)@.store_bcd(x),
    {
        let nbr = self.v[x as usize];
        let hundreds = (nbr / 100) % 10;
        let tens = (nbr / 10) % 10;
        let ones = nbr % 10;

        self.memory[self.i as usize] = hundreds;
        self.memory[self.i as usize + 1] = tens;
        self.memory[self.i as usize + 2] = ones;
    }

    /// The value that a shift works on
    fn shift_operand(&self, x: u8, y: u8) -> (source: u8)
        requires
            x < 16,
            y < 16,
        ensures
            source == self@.shift_source(x, y),
    {
        match self.quirks.shift {
            Behavior::Modern => self.v[x as usize],
            Behavior::Legacy => self.v[y as usize],
        }
    }
}

} // verus!
