//! Instruction words and their decoding.

use vstd::prelude::*;

verus! {

/// A decoded CPU instruction with its operands.
///
/// Register operands are nibbles (`0..16`), byte operands are full bytes and
/// address operands are twelve bits wide.
#[allow(clippy::upper_case_acronyms)]
#[derive(Debug, Clone, Copy, PartialEq, Eq, Structural)]
pub enum Instr {
    /// Clear screen
    CLS,
    /// Return from subroutine
    RET,
    /// Jump
    JP(u16),
    /// Go to a subroutine
    CALL(u16),
    /// Skip if equal
    SE(u8, u8),
    /// Skip if not equal
    SNE(u8, u8),
    /// Skip if equal (using two registers)
    SEV(u8, u8),
    /// Set register
    LD(u8, u8),
    /// Addition
    ADD(u8, u8),
    /// Set register from another register
    LDV(u8, u8),
    /// Or
    OR(u8, u8),
    /// And
    AND(u8, u8),
    /// Xor
    XOR(u8, u8),
    /// Add two registers
    ADDV(u8, u8),
    /// Subtract
    SUB(u8, u8),
    /// Shift right
    SHR(u8, u8),
    /// Subtract vx from vy
    SUBN(u8, u8),
    /// Shift left
    SHL(u8, u8),
    /// Skip not equal (using registers)
    SNEV(u8, u8),
    /// Set register I
    LDI(u16),
    /// Jump with a register offset
    JPV(u8, u16),
    /// Generate random number
    RND(u8, u8),
    /// Draw
    DRW(u8, u8, u8),
    /// Skip if key pressed
    SKP(u8),
    /// Skip if key not pressed
    SKNP(u8),
    /// Load delay timer into x
    LDXT(u8),
    /// Wait for a key
    LDK(u8),
    /// Load x into delay timer
    LDTX(u8),
    /// Load x into sound timer
    LDS(u8),
    /// Add to the register I
    ADDI(u8),
    /// Loads into I the address for a given character
    LDF(u8),
    /// Get BCD representation of argument
    LDB(u8),
    /// Store into memory
    LDIX(u8),
    /// Load from memory
    LDXI(u8),
    /// Every other instruction
    NIL,
}

/// The opcode family of a word: its top nibble.
pub open spec fn family(word: u16) -> u8 {
    (word / 0x1000) as u8
}

/// The register operand X of a word: its middle-high nibble.
pub open spec fn operand_x(word: u16) -> u8 {
    ((word / 0x100) % 0x10) as u8
}

/// The register operand Y of a word: its middle-low nibble.
pub open spec fn operand_y(word: u16) -> u8 {
    ((word / 0x10) % 0x10) as u8
}

/// The low nibble of a word.
pub open spec fn operand_n(word: u16) -> u8 {
    (word % 0x10) as u8
}

/// The immediate byte of a word: its low byte.
pub open spec fn operand_nn(word: u16) -> u8 {
    (word % 0x100) as u8
}

/// The address operand of a word: its low three nibbles.
pub open spec fn operand_nnn(word: u16) -> u16 {
    (word % 0x1000) as u16
}

/// The arithmetic and logic family, told apart by the low nibble.
pub open spec fn decode_alu(word: u16) -> Instr {
    let x = operand_x(word);
    let y = operand_y(word);
    let n = operand_n(word);
    if n == 0x0 {
        Instr::LDV(x, y)
    } else if n == 0x1 {
        Instr::OR(x, y)
    } else if n == 0x2 {
        Instr::AND(x, y)
    } else if n == 0x3 {
        Instr::XOR(x, y)
    } else if n == 0x4 {
        Instr::ADDV(x, y)
    } else if n == 0x5 {
        Instr::SUB(x, y)
    } else if n == 0x6 {
        Instr::SHR(x, y)
    } else if n == 0x7 {
        Instr::SUBN(x, y)
    } else if n == 0xE {
        Instr::SHL(x, y)
    } else {
        Instr::NIL
    }
}

/// The keypad family, told apart by the low byte.
pub open spec fn decode_key(word: u16) -> Instr {
    let x = operand_x(word);
    let nn = operand_nn(word);
    if nn == 0x9E {
        Instr::SKP(x)
    } else if nn == 0xA1 {
        Instr::SKNP(x)
    } else {
        Instr::NIL
    }
}

/// The timer, memory and index family, told apart by the low byte.
pub open spec fn decode_misc(word: u16) -> Instr {
    let x = operand_x(word);
    let nn = operand_nn(word);
    if nn == 0x07 {
        Instr::LDXT(x)
    } else if nn == 0x0A {
        Instr::LDK(x)
    } else if nn == 0x15 {
        Instr::LDTX(x)
    } else if nn == 0x18 {
        Instr::LDS(x)
    } else if nn == 0x1E {
        Instr::ADDI(x)
    } else if nn == 0x29 {
        Instr::LDF(x)
    } else if nn == 0x33 {
        Instr::LDB(x)
    } else if nn == 0x55 {
        Instr::LDIX(x)
    } else if nn == 0x65 {
        Instr::LDXI(x)
    } else {
        Instr::NIL
    }
}

impl Instr {
    /// The instruction that a word stands for.
    ///
    /// The two literal words are recognised first; every other word is routed
    /// by its family, and a word that matches no opcode is `NIL`.
    pub open spec fn spec_decode(word: u16) -> Instr {
        let x = operand_x(word);
        let y = operand_y(word);
        let n = operand_n(word);
        let nn = operand_nn(word);
        let nnn = operand_nnn(word);
        let top = family(word);
        if word == 0x00E0 {
            Instr::CLS
        } else if word == 0x00EE {
            Instr::RET
        } else if top == 0x1 {
            Instr::JP(nnn)
        } else if top == 0x2 {
            Instr::CALL(nnn)
        } else if top == 0x3 {
            Instr::SE(x, nn)
        } else if top == 0x4 {
            Instr::SNE(x, nn)
        } else if top == 0x5 {
            Instr::SEV(x, y)
        } else if top == 0x6 {
            Instr::LD(x, nn)
        } else if top == 0x7 {
            Instr::ADD(x, nn)
        } else if top == 0x8 {
            decode_alu(word)
        } else if top == 0x9 {
            Instr::SNEV(x, y)
        } else if top == 0xA {
            Instr::LDI(nnn)
        } else if top == 0xB {
            Instr::JPV(x, nnn)
        } else if top == 0xC {
            Instr::RND(x, nn)
        } else if top == 0xD {
            Instr::DRW(x, y, n)
        } else if top == 0xE {
            decode_key(word)
        } else if top == 0xF {
            decode_misc(word)
        } else {
            Instr::NIL
        }
    }

    /// Whether every operand lies in the range that its field of a word can
    /// hold: registers and the sprite height are nibbles, addresses have
    /// twelve bits.
    pub open spec fn well_formed(self) -> bool {
        match self {
            Instr::CLS | Instr::RET | Instr::NIL => true,
            Instr::JP(nnn) | Instr::CALL(nnn) | Instr::LDI(nnn) => nnn < 0x1000,
            Instr::JPV(x, nnn) => x < 16 && nnn < 0x1000,
            Instr::SE(x, _) | Instr::SNE(x, _) | Instr::LD(x, _) | Instr::ADD(x, _) | Instr::RND(
                x,
                _,
            ) => x < 16,
            Instr::SEV(x, y)
            | Instr::LDV(x, y)
            | Instr::OR(x, y)
            | Instr::AND(x, y)
            | Instr::XOR(x, y)
            | Instr::ADDV(x, y)
            | Instr::SUB(x, y)
            | Instr::SHR(x, y)
            | Instr::SUBN(x, y)
            | Instr::SHL(x, y)
            | Instr::SNEV(x, y) => x < 16 && y < 16,
            Instr::DRW(x, y, n) => x < 16 && y < 16 && n < 16,
            Instr::SKP(x)
            | Instr::SKNP(x)
            | Instr::LDXT(x)
            | Instr::LDK(x)
            | Instr::LDTX(x)
            | Instr::LDS(x)
            | Instr::ADDI(x)
            | Instr::LDF(x)
            | Instr::LDB(x)
            | Instr::LDIX(x)
            | Instr::LDXI(x) => x < 16,
        }
    }

    /// Decode an instruction given in bits
    #[verifier::when_used_as_spec(spec_decode)]
    pub fn decode(fe: u16) -> (instr: Instr)
        ensures
            instr == Instr::spec_decode(fe),
            instr.well_formed(),
    {
        let x = ((fe & 0x0F00) >> 8) as u8;
        let y = ((fe & 0x00F0) >> 4) as u8;
        let n = (fe & 0x000F) as u8;
        let nn = (fe & 0x00FF) as u8;
        let nnn = fe & 0x0FFF;
        let top = (fe & 0xF000) >> 12;

        proof {
            lemma_fields(fe);
        }

        match fe {
            0x00E0 => return Instr::CLS,
            0x00EE => return Instr::RET,
            _ => (),
        }

        match top {
            0x1 => return Instr::JP(nnn),
            0x2 => return Instr::CALL(nnn),
            0x3 => return Instr::SE(x, nn),
            0x4 => return Instr::SNE(x, nn),
            0x5 => return Instr::SEV(x, y),
            0x6 => return Instr::LD(x, nn),
            0x7 => return Instr::ADD(x, nn),
            0x8 => match n {
                0x0 => return Instr::LDV(x, y),
                0x1 => return Instr::OR(x, y),
                0x2 => return Instr::AND(x, y),
                0x3 => return Instr::XOR(x, y),
                0x4 => return Instr::ADDV(x, y),
                0x5 => return Instr::SUB(x, y),
                0x6 => return Instr::SHR(x, y),
                0x7 => return Instr::SUBN(x, y),
                0xE => return Instr::SHL(x, y),
                _ => (),
            },
            0x9 => return Instr::SNEV(x, y),
            0xA => return Instr::LDI(nnn),
            0xB => return Instr::JPV(x, nnn),
            0xC => return Instr::RND(x, nn),
            0xD => return Instr::DRW(x, y, n),
            0xE => match nn {
                0x9E => return Instr::SKP(x),
                0xA1 => return Instr::SKNP(x),
                _ => (),
            },
            0xF => match nn {
                0x07 => return Instr::LDXT(x),
                0x0A => return Instr::LDK(x),
                0x15 => return Instr::LDTX(x),
                0x18 => return Instr::LDS(x),
                0x1E => return Instr::ADDI(x),
                0x29 => return Instr::LDF(x),
                0x33 => return Instr::LDB(x),
                0x55 => return Instr::LDIX(x),
                0x65 => return Instr::LDXI(x),
                _ => (),
            },
            _ => (),
        }

        Instr::NIL
    }
}

/// The masks and shifts that cut a word into its fields agree with the
/// fields' arithmetic definitions.
pub proof fn lemma_fields(word: u16)
    ensures
        (word & 0xF000) >> 12 == family(word),
        ((word & 0x0F00) >> 8) as u8 == operand_x(word),
        ((word & 0x00F0) >> 4) as u8 == operand_y(word),
        (word & 0x000F) as u8 == operand_n(word),
        (word & 0x00FF) as u8 == operand_nn(word),
        word & 0x0FFF == operand_nnn(word),
        family(word) < 16,
        operand_x(word) < 16,
        operand_y(word) < 16,
        operand_n(word) < 16,
        operand_nnn(word) < 0x1000,
{
    assert((word & 0xF000) >> 12 == word / 0x1000) by (bit_vector);
    assert((word & 0x0F00) >> 8 == (word / 0x100) % 0x10) by (bit_vector);
    assert((word & 0x00F0) >> 4 == (word / 0x10) % 0x10) by (bit_vector);
    assert(word & 0x000F == word % 0x10) by (bit_vector);
    assert(word & 0x00FF == word % 0x100) by (bit_vector);
    assert(word & 0x0FFF == word % 0x1000) by (bit_vector);
}

/// Every word decodes to an instruction whose operands lie in their ranges.
pub proof fn lemma_decoded_well_formed(word: u16)
    ensures
        Instr::spec_decode(word).well_formed(),
{
    lemma_fields(word);
}

} // verus!
