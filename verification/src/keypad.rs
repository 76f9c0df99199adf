//! The hexadecimal keypad on a keyboard: its layout, and what the emulator
//! does about each input.

use vstd::prelude::*;

verus! {

/// The symbol of the key that stops the emulator: escape.
pub const STOP_KEY: char = '\u{1b}';

/// What the keyboard or the window reports.
#[derive(Debug, Clone, Copy, PartialEq, Eq, Structural)]
pub enum Input {
    /// The window was closed
    Quit,
    /// The key with this symbol went down
    KeyDown(char),
    /// The key with this symbol went up
    KeyUp(char),
    /// Anything else
    Other,
}

/// What the emulator does about an input.
#[derive(Debug, Clone, Copy, PartialEq, Eq, Structural)]
pub enum Reaction {
    /// It stops
    Stop,
    /// It sets the key of the keypad with this index down (true) or up
    SetKey(usize, bool),
    /// It goes on
    Nothing,
}

/// The key of the keypad that the keyboard key with the given symbol stands
/// for. The four by four block of keys from `1` to `v` is laid out as the
/// keypad is:
///
/// ```text
/// 1 2 3 4      1 2 3 C
/// q w e r  ->  4 5 6 D
/// a s d f      7 8 9 E
/// y x c v      A 0 B F
/// ```
pub open spec fn spec_key_index(symbol: char) -> Option<usize> {
    if symbol == '1' {
        Some(0x1)
    } else if symbol == '2' {
        Some(0x2)
    } else if symbol == '3' {
        Some(0x3)
    } else if symbol == '4' {
        Some(0xC)
    } else if symbol == 'q' {
        Some(0x4)
    } else if symbol == 'w' {
        Some(0x5)
    } else if symbol == 'e' {
        Some(0x6)
    } else if symbol == 'r' {
        Some(0xD)
    } else if symbol == 'a' {
        Some(0x7)
    } else if symbol == 's' {
        Some(0x8)
    } else if symbol == 'd' {
        Some(0x9)
    } else if symbol == 'f' {
        Some(0xE)
    } else if symbol == 'y' {
        Some(0xA)
    } else if symbol == 'x' {
        Some(0x0)
    } else if symbol == 'c' {
        Some(0xB)
    } else if symbol == 'v' {
        Some(0xF)
    } else {
        None
    }
}

/// The key of the keypad that a keyboard key stands for, if it stands for
/// one.
#[verifier::when_used_as_spec(spec_key_index)]
pub fn key_index(symbol: char) -> (index: Option<usize>)
    ensures
        index == spec_key_index(symbol),
        index matches Some(k) ==> k < 16,
{
    match symbol {
        '1' => Some(0x1),
        '2' => Some(0x2),
        '3' => Some(0x3),
        '4' => Some(0xC),
        'q' => Some(0x4),
        'w' => Some(0x5),
        'e' => Some(0x6),
        'r' => Some(0xD),
        'a' => Some(0x7),
        's' => Some(0x8),
        'd' => Some(0x9),
        'f' => Some(0xE),
        'y' => Some(0xA),
        'x' => Some(0x0),
        'c' => Some(0xB),
        'v' => Some(0xF),
        _ => None,
    }
}

/// What the emulator does about an input: closing the window and pressing
/// escape stop it; a key of the four by four block, going down or up, sets
/// the key of the keypad that it stands for; nothing else has an effect.
pub open spec fn spec_react(input: Input) -> Reaction {
    match input {
        Input::Quit => Reaction::Stop,
        Input::KeyDown(symbol) => if symbol == STOP_KEY {
            Reaction::Stop
        } else {
            match spec_key_index(symbol) {
                Some(index) => Reaction::SetKey(index, true),
                None => Reaction::Nothing,
            }
        },
        Input::KeyUp(symbol) => match spec_key_index(symbol) {
            Some(index) => Reaction::SetKey(index, false),
            None => Reaction::Nothing,
        },
        Input::Other => Reaction::Nothing,
    }
}

/// What the emulator does about an input.
#[verifier::when_used_as_spec(spec_react)]
pub fn react(input: Input) -> (reaction: Reaction)
    ensures
        reaction == spec_react(input),
        reaction matches Reaction::SetKey(index, _) ==> index < 16,
{
    let (symbol, down) = match input {
        Input::Quit => {
            return Reaction::Stop;
        },
        Input::KeyDown(symbol) => {
            if symbol == STOP_KEY {
                return Reaction::Stop;
            }
            (symbol, true)
        },
        Input::KeyUp(symbol) => (symbol, false),
        Input::Other => {
            return Reaction::Nothing;
        },
    };

    match key_index(symbol) {
        Some(index) => Reaction::SetKey(index, down),
        None => Reaction::Nothing,
    }
}

/// No two keyboard keys stand for the same key of the keypad.
pub proof fn lemma_layout_is_one_to_one(a: char, b: char)
    requires
        key_index(a) is Some,
        key_index(a) == key_index(b),
    ensures
        a == b,
{
}

/// Every key of the keypad has a keyboard key that stands for it.
pub proof fn lemma_layout_covers_keypad(k: usize)
    requires
        k < 16,
    ensures
        exists|symbol: char| #[trigger] key_index(symbol) == Some(k),
{
    let symbol = if k == 0x0 {
        'x'
    } else if k == 0x1 {
        '1'
    } else if k == 0x2 {
        '2'
    } else if k == 0x3 {
        '3'
    } else if k == 0x4 {
        'q'
    } else if k == 0x5 {
        'w'
    } else if k == 0x6 {
        'e'
    } else if k == 0x7 {
        'a'
    } else if k == 0x8 {
        's'
    } else if k == 0x9 {
        'd'
    } else if k == 0xA {
        'y'
    } else if k == 0xB {
        'c'
    } else if k == 0xC {
        '4'
    } else if k == 0xD {
        'r'
    } else if k == 0xE {
        'f'
    } else {
        'v'
    };
    assert(key_index(symbol) == Some(k));
}

} // verus!
