use chip8::font::{digit_addr, FONT, FONT_ADDR};
use chip8::keypad::{key_index, react, Input, Reaction, STOP_KEY};
use chip8::Instr;

#[test]
fn decodes_the_two_literal_words() {
    assert_eq!(Instr::decode(0x00E0), Instr::CLS);
    assert_eq!(Instr::decode(0x00EE), Instr::RET);
}

#[test]
fn decodes_jumps_and_calls() {
    assert_eq!(Instr::decode(0x1ABC), Instr::JP(0xABC));
    assert_eq!(Instr::decode(0x2123), Instr::CALL(0x123));
    assert_eq!(Instr::decode(0xB123), Instr::JPV(0x1, 0x123));
    assert_eq!(Instr::decode(0x1000), Instr::JP(0x000));
    assert_eq!(Instr::decode(0x2FFF), Instr::CALL(0xFFF));
}

#[test]
fn decodes_skips() {
    assert_eq!(Instr::decode(0x3A42), Instr::SE(0xA, 0x42));
    assert_eq!(Instr::decode(0x4B01), Instr::SNE(0xB, 0x01));
    assert_eq!(Instr::decode(0x5120), Instr::SEV(0x1, 0x2));
    assert_eq!(Instr::decode(0x9CD0), Instr::SNEV(0xC, 0xD));
    assert_eq!(Instr::decode(0xE19E), Instr::SKP(0x1));
    assert_eq!(Instr::decode(0xEFA1), Instr::SKNP(0xF));
}

#[test]
fn skips_on_registers_ignore_the_low_nibble() {
    assert_eq!(Instr::decode(0x5127), Instr::SEV(0x1, 0x2));
    assert_eq!(Instr::decode(0x934F), Instr::SNEV(0x3, 0x4));
}

#[test]
fn decodes_loads_and_immediate_add() {
    assert_eq!(Instr::decode(0x6005), Instr::LD(0x0, 0x05));
    assert_eq!(Instr::decode(0x7AFF), Instr::ADD(0xA, 0xFF));
    assert_eq!(Instr::decode(0xA300), Instr::LDI(0x300));
    assert_eq!(Instr::decode(0xC30F), Instr::RND(0x3, 0x0F));
    assert_eq!(Instr::decode(0xD125), Instr::DRW(0x1, 0x2, 0x5));
}

#[test]
fn decodes_the_arithmetic_family_by_low_nibble() {
    assert_eq!(Instr::decode(0x8120), Instr::LDV(0x1, 0x2));
    assert_eq!(Instr::decode(0x8121), Instr::OR(0x1, 0x2));
    assert_eq!(Instr::decode(0x8122), Instr::AND(0x1, 0x2));
    assert_eq!(Instr::decode(0x8123), Instr::XOR(0x1, 0x2));
    assert_eq!(Instr::decode(0x8124), Instr::ADDV(0x1, 0x2));
    assert_eq!(Instr::decode(0x8125), Instr::SUB(0x1, 0x2));
    assert_eq!(Instr::decode(0x8126), Instr::SHR(0x1, 0x2));
    assert_eq!(Instr::decode(0x8127), Instr::SUBN(0x1, 0x2));
    assert_eq!(Instr::decode(0x812E), Instr::SHL(0x1, 0x2));
}

#[test]
fn decodes_the_misc_family_by_low_byte() {
    assert_eq!(Instr::decode(0xF107), Instr::LDXT(0x1));
    assert_eq!(Instr::decode(0xF20A), Instr::LDK(0x2));
    assert_eq!(Instr::decode(0xF315), Instr::LDTX(0x3));
    assert_eq!(Instr::decode(0xF418), Instr::LDS(0x4));
    assert_eq!(Instr::decode(0xF51E), Instr::ADDI(0x5));
    assert_eq!(Instr::decode(0xF629), Instr::LDF(0x6));
    assert_eq!(Instr::decode(0xF733), Instr::LDB(0x7));
    assert_eq!(Instr::decode(0xF855), Instr::LDIX(0x8));
    assert_eq!(Instr::decode(0xF965), Instr::LDXI(0x9));
}

#[test]
fn words_that_match_no_opcode_are_nil() {
    assert_eq!(Instr::decode(0x0000), Instr::NIL);
    assert_eq!(Instr::decode(0x0123), Instr::NIL);
    assert_eq!(Instr::decode(0x00E1), Instr::NIL);
    assert_eq!(Instr::decode(0x8128), Instr::NIL);
    assert_eq!(Instr::decode(0x812F), Instr::NIL);
    assert_eq!(Instr::decode(0xE100), Instr::NIL);
    assert_eq!(Instr::decode(0xE19F), Instr::NIL);
    assert_eq!(Instr::decode(0xF1FF), Instr::NIL);
    assert_eq!(Instr::decode(0xF000), Instr::NIL);
}

#[test]
fn every_word_decodes_to_operands_in_range() {
    for word in 0..=0xFFFFu16 {
        match Instr::decode(word) {
            Instr::JP(nnn) | Instr::CALL(nnn) | Instr::LDI(nnn) => assert!(nnn < 0x1000),
            Instr::JPV(x, nnn) => assert!(x < 16 && nnn < 0x1000),
            Instr::DRW(x, y, n) => assert!(x < 16 && y < 16 && n < 16),
            Instr::SEV(x, y) | Instr::SNEV(x, y) | Instr::ADDV(x, y) | Instr::SUB(x, y) => {
                assert!(x < 16 && y < 16)
            }
            Instr::SE(x, _) | Instr::LD(x, _) | Instr::LDB(x) | Instr::LDK(x) => assert!(x < 16),
            _ => (),
        }
    }
}

#[test]
fn digit_addresses_are_five_bytes_apart() {
    assert_eq!(FONT_ADDR, 0x50);
    assert_eq!(digit_addr(0), 0x50);
    assert_eq!(digit_addr(1), 0x55);
    assert_eq!(digit_addr(0xA), 0x82);
    assert_eq!(digit_addr(0xF), 0x9B);
    for d in 0..16u8 {
        assert_eq!(digit_addr(d), 0x50 + 5 * d as u16);
    }
    assert_eq!(digit_addr(255), 0x50 + 1275);
}

#[test]
fn font_glyphs_are_the_hexadecimal_digits() {
    assert_eq!(FONT.len(), 16);
    assert_eq!(FONT[0x0], [0xF0, 0x90, 0x90, 0x90, 0xF0]);
    assert_eq!(FONT[0x1], [0x20, 0x60, 0x20, 0x20, 0x70]);
    assert_eq!(FONT[0x7], [0xF0, 0x10, 0x20, 0x40, 0x40]);
    assert_eq!(FONT[0xB], [0xE0, 0x90, 0xE0, 0x90, 0xE0]);
    assert_eq!(FONT[0xF], [0xF0, 0x80, 0xF0, 0x80, 0x80]);
}

#[test]
fn keyboard_block_maps_onto_the_keypad() {
    assert_eq!(key_index('1'), Some(0x1));
    assert_eq!(key_index('2'), Some(0x2));
    assert_eq!(key_index('3'), Some(0x3));
    assert_eq!(key_index('4'), Some(0xC));
    assert_eq!(key_index('q'), Some(0x4));
    assert_eq!(key_index('w'), Some(0x5));
    assert_eq!(key_index('e'), Some(0x6));
    assert_eq!(key_index('r'), Some(0xD));
    assert_eq!(key_index('a'), Some(0x7));
    assert_eq!(key_index('s'), Some(0x8));
    assert_eq!(key_index('d'), Some(0x9));
    assert_eq!(key_index('f'), Some(0xE));
    assert_eq!(key_index('y'), Some(0xA));
    assert_eq!(key_index('x'), Some(0x0));
    assert_eq!(key_index('c'), Some(0xB));
    assert_eq!(key_index('v'), Some(0xF));
}

#[test]
fn other_keyboard_keys_map_to_no_key() {
    assert_eq!(key_index('z'), None);
    assert_eq!(key_index('5'), None);
    assert_eq!(key_index('0'), None);
    assert_eq!(key_index('Q'), None);
    assert_eq!(key_index(' '), None);
}

#[test]
fn keyboard_layout_is_a_bijection() {
    let mut seen = [false; 16];
    for symbol in "1234qwerasdfyxcv".chars() {
        let k = key_index(symbol).unwrap();
        assert!(!seen[k]);
        seen[k] = true;
    }
    assert!(seen.iter().all(|s| *s));
}

#[test]
fn closing_the_window_or_pressing_escape_stops() {
    assert_eq!(react(Input::Quit), Reaction::Stop);
    assert_eq!(STOP_KEY, '\u{1b}');
    assert_eq!(react(Input::KeyDown(STOP_KEY)), Reaction::Stop);
    assert_eq!(react(Input::KeyUp(STOP_KEY)), Reaction::Nothing);
}

#[test]
fn keys_of_the_block_set_keys_of_the_keypad() {
    assert_eq!(react(Input::KeyDown('q')), Reaction::SetKey(0x4, true));
    assert_eq!(react(Input::KeyUp('q')), Reaction::SetKey(0x4, false));
    assert_eq!(react(Input::KeyDown('v')), Reaction::SetKey(0xF, true));
    assert_eq!(react(Input::KeyUp('x')), Reaction::SetKey(0x0, false));
    for symbol in "1234qwerasdfyxcv".chars() {
        let index = key_index(symbol).unwrap();
        assert_eq!(react(Input::KeyDown(symbol)), Reaction::SetKey(index, true));
        assert_eq!(react(Input::KeyUp(symbol)), Reaction::SetKey(index, false));
    }
}

#[test]
fn other_inputs_have_no_effect() {
    assert_eq!(react(Input::Other), Reaction::Nothing);
    assert_eq!(react(Input::KeyDown('z')), Reaction::Nothing);
    assert_eq!(react(Input::KeyUp('p')), Reaction::Nothing);
    assert_eq!(react(Input::KeyDown(' ')), Reaction::Nothing);
}
