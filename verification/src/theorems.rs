//! What holds of the machine's model, for every state and every operand.

use vstd::prelude::*;
use crate::display::{blank, BUFF_SIZE};
use crate::font::{font_byte, FONT, FONT_ADDR};
use crate::instructions::Instr;
use crate::machine::{decimal_digit, Quirks, State, FLAG, MEM_SIZE, REGISTER_COUNT};

verus! {

/// Drawing a sprite changes the display and VF and nothing else, and VF
/// is 0 or 1 after it.
pub proof fn lemma_draw_changes_display_and_flag_only(s: State, x: u8, y: u8, n: u8)
    ensures
        ({
            let t = s.draw(x, y, n);
            &&& t == (State { display: t.display, v: t.v, ..s })
            &&& t.display.len() == BUFF_SIZE
            &&& s.wf() ==> t.v == s.v.update(FLAG as int, t.v[FLAG as int])
            &&& s.wf() ==> t.v[FLAG as int] == 0 || t.v[FLAG as int] == 1
        }),
{
    reveal(State::draw);
}

/// Storing registers changes the memory and, with the legacy behaviour,
/// I, and nothing else.
pub proof fn lemma_store_changes_memory_and_index_only(s: State, x: u8)
    ensures
        ({
            let t = s.store_registers(x);
            &&& t == (State { memory: t.memory, i: s.index_after_transfer(x), ..s })
            &&& t.memory.len() == MEM_SIZE
        }),
{
    reveal(State::store_registers);
}

/// Loading registers changes the registers and, with the legacy behaviour,
/// I, and nothing else.
pub proof fn lemma_load_changes_registers_and_index_only(s: State, x: u8)
    ensures
        ({
            let t = s.load_registers(x);
            &&& t == (State { v: t.v, i: s.index_after_transfer(x), ..s })
            &&& t.v.len() == REGISTER_COUNT
        }),
{
    reveal(State::load_registers);
}

/// What the three lemmas above say, for the instruction at hand.
proof fn lemma_frames(s: State, instr: Instr)
    ensures
        instr matches Instr::DRW(x, y, n) ==> ({
            let t = s.draw(x, y, n);
            &&& t == (State { display: t.display, v: t.v, ..s })
            &&& t.display.len() == BUFF_SIZE
            &&& s.wf() ==> t.v == s.v.update(FLAG as int, t.v[FLAG as int])
        }),
        instr matches Instr::LDIX(x) ==> ({
            let t = s.store_registers(x);
            &&& t == (State { memory: t.memory, i: s.index_after_transfer(x), ..s })
            &&& t.memory.len() == MEM_SIZE
        }),
        instr matches Instr::LDXI(x) ==> ({
            let t = s.load_registers(x);
            &&& t == (State { v: t.v, i: s.index_after_transfer(x), ..s })
            &&& t.v.len() == REGISTER_COUNT
        }),
{
    match instr {
        Instr::DRW(x, y, n) => lemma_draw_changes_display_and_flag_only(s, x, y, n),
        Instr::LDIX(x) => lemma_store_changes_memory_and_index_only(s, x),
        Instr::LDXI(x) => lemma_load_changes_registers_and_index_only(s, x),
        _ => {},
    }
}

/// Executing an instruction that can be executed keeps every part of the
/// state at its size.
pub proof fn lemma_exec_keeps_sizes(s: State, instr: Instr, random: u8)
    requires
        s.wf(),
        instr.well_formed(),
        s.exec_fault(instr) is None,
    ensures
        s.exec(instr, random).wf(),
{
    lemma_frames(s, instr);
}

/// A cycle that can run keeps every part of the state at its size.
pub proof fn lemma_step_keeps_sizes(s: State, random: u8)
    requires
        s.wf(),
        s.fault() is None,
    ensures
        s.step(random).wf(),
{
    crate::instructions::lemma_decoded_well_formed(s.fetch());
    lemma_exec_keeps_sizes(s.advance(), s.next_instr(), random);
}

/// The byte drawn at random matters to the random instruction alone.
pub proof fn lemma_random_matters_to_rnd_only(s: State, r1: u8, r2: u8)
    requires
        !(s.next_instr() is RND),
    ensures
        s.step(r1) == s.step(r2),
{
}

/// Adding two registers sets VF to 1 if and only if the sum is above 255,
/// whatever the registers are; the register added to then holds the sum
/// modulo 256, unless it is VF itself.
pub proof fn lemma_add_carry(s: State, x: u8, y: u8, random: u8)
    requires
        s.wf(),
        x < 16,
        y < 16,
    ensures
        ({
            let a = s.v[x as int];
            let b = s.v[y as int];
            let t = s.exec(Instr::ADDV(x, y), random);
            &&& t.v[FLAG as int] == 1 <==> a + b > 255
            &&& t.v[FLAG as int] == 0 <==> a + b <= 255
            &&& x != FLAG ==> t.v[x as int] == (a + b) % 256
        }),
{
}

/// Subtracting register `y` from register `x` leaves the difference modulo
/// 256 in register `x`; unless that register is VF itself, VF is 1 if and
/// only if nothing was borrowed, that is, if the minuend is not below the
/// subtrahend.
pub proof fn lemma_sub_borrow(s: State, x: u8, y: u8, random: u8)
    requires
        s.wf(),
        x < 16,
        y < 16,
    ensures
        ({
            let a = s.v[x as int];
            let b = s.v[y as int];
            let t = s.exec(Instr::SUB(x, y), random);
            &&& t.v[x as int] == (a - b) % 256
            &&& x != FLAG ==> (t.v[FLAG as int] == 1 <==> a >= b)
            &&& x != FLAG ==> (t.v[FLAG as int] == 0 <==> a < b)
        }),
{
}

/// Subtracting register `x` from register `y` leaves the difference modulo
/// 256 in register `x`; unless that register is VF itself, VF is 1 if and
/// only if nothing was borrowed.
pub proof fn lemma_subn_borrow(s: State, x: u8, y: u8, random: u8)
    requires
        s.wf(),
        x < 16,
        y < 16,
    ensures
        ({
            let a = s.v[x as int];
            let b = s.v[y as int];
            let t = s.exec(Instr::SUBN(x, y), random);
            &&& t.v[x as int] == (b - a) % 256
            &&& x != FLAG ==> (t.v[FLAG as int] == 1 <==> b >= a)
            &&& x != FLAG ==> (t.v[FLAG as int] == 0 <==> b < a)
        }),
{
}

/// A shift to the right halves the value shifted; unless the register
/// shifted into is VF itself, VF is the lowest bit that the value had before
/// the shift.
pub proof fn lemma_shift_right_flag(s: State, x: u8, y: u8, random: u8)
    requires
        s.wf(),
        x < 16,
        y < 16,
    ensures
        ({
            let source = s.shift_source(x, y);
            let t = s.exec(Instr::SHR(x, y), random);
            &&& t.v[x as int] == source >> 1
            &&& x != FLAG ==> t.v[FLAG as int] == source & 1
        }),
{
    let source = s.shift_source(x, y);
    assert(source & 1 == source % 2 && source >> 1 == source / 2) by (bit_vector);
}

/// A shift to the left doubles the value shifted, modulo 256; unless the
/// register shifted into is VF itself, VF is the highest bit that the value
/// had before the shift.
pub proof fn lemma_shift_left_flag(s: State, x: u8, y: u8, random: u8)
    requires
        s.wf(),
        x < 16,
        y < 16,
    ensures
        ({
            let source = s.shift_source(x, y);
            let t = s.exec(Instr::SHL(x, y), random);
            &&& t.v[x as int] == source << 1
            &&& x != FLAG ==> t.v[FLAG as int] == (source >> 7) & 1
        }),
{
    let source = s.shift_source(x, y);
    assert((source >> 7) & 1 == source / 128 && source << 1 == (source * 2) % 256)
        by (bit_vector);
}

/// Clearing the display and then drawing a sprite leaves the sprite alone on
/// the display, whatever the display held before, and reports no collision.
pub proof fn lemma_clear_then_draw(s: State, x: u8, y: u8, n: u8, r1: u8, r2: u8)
    requires
        s.wf(),
        x < 16,
        y < 16,
    ensures
        ({
            let t = s.exec(Instr::CLS, r1).exec(Instr::DRW(x, y, n), r2);
            &&& t.display == s.sprite(x, y, n).image()
            &&& t.v[FLAG as int] == 0
        }),
{
    reveal(State::draw);
    let cleared = s.exec(Instr::CLS, r1);
    let sprite = s.sprite(x, y, n);
    assert(cleared.sprite(x, y, n) == sprite);
    assert(sprite.drawn_on(blank()) =~= sprite.image());
    assert(!sprite.collides_with(blank()));
}

/// Drawing the same sprite twice at the same place restores the display.
/// The second draw reports a collision if and only if the first draw turned
/// a pixel on. The coordinate registers must not be VF, which the first draw
/// overwrites.
pub proof fn lemma_draw_twice(s: State, x: u8, y: u8, n: u8, r1: u8, r2: u8)
    requires
        s.wf(),
        x < 15,
        y < 15,
    ensures
        ({
            let sprite = s.sprite(x, y, n);
            let once = s.exec(Instr::DRW(x, y, n), r1);
            let twice = once.exec(Instr::DRW(x, y, n), r2);
            &&& twice.display == s.display
            &&& twice.v[FLAG as int] == 1 <==> (exists|p: int|
                0 <= p < BUFF_SIZE && !s.display[p] && #[trigger] sprite.covers_index(p))
            &&& twice.v[FLAG as int] == 0 <==> (forall|p: int|
                0 <= p < BUFF_SIZE && #[trigger] sprite.covers_index(p) ==> s.display[p])
        }),
{
    reveal(State::draw);
    let sprite = s.sprite(x, y, n);
    let once = s.exec(Instr::DRW(x, y, n), r1);
    let twice = once.exec(Instr::DRW(x, y, n), r2);
    assert(once.sprite(x, y, n) == sprite);
    assert(twice.display =~= s.display);
    if sprite.collides_with(once.display) {
        let p = choose|p: int|
            0 <= p < BUFF_SIZE && once.display[p] && #[trigger] sprite.covers_index(p);
        assert(!s.display[p]);
    }
    if exists|p: int| 0 <= p < BUFF_SIZE && !s.display[p] && #[trigger] sprite.covers_index(p) {
        let p = choose|p: int|
            0 <= p < BUFF_SIZE && !s.display[p] && #[trigger] sprite.covers_index(p);
        assert(once.display[p] && sprite.covers_index(p));
    }
}

/// A call followed at once by a return leaves the program counter and the
/// call stack as they were before the call.
pub proof fn lemma_return_undoes_call(s: State, target: u16, r1: u8, r2: u8)
    ensures
        ({
            let t = s.exec(Instr::CALL(target), r1).exec(Instr::RET, r2);
            &&& t.pc == s.pc
            &&& t.stack == s.stack
            &&& t == s
        }),
{
    let called = s.exec(Instr::CALL(target), r1);
    assert(called.stack.drop_last() =~= s.stack);
}

/// When the instruction at the program counter is a call and the first
/// instruction of the subroutine is a return, two cycles later the program
/// counter stands at the instruction behind the call, and the call stack is
/// as it was.
pub proof fn lemma_call_then_return(s: State, target: u16, r1: u8, r2: u8)
    requires
        s.wf(),
        s.pc + 1 < MEM_SIZE,
        s.next_instr() == Instr::CALL(target),
        s.step(r1).next_instr() is RET,
    ensures
        s.step(r1).pc == target,
        s.step(r1).step(r2).pc == s.pc + 2,
        s.step(r1).step(r2).stack == s.stack,
{
    let called = s.step(r1);
    assert(called.stack == s.stack.push((s.pc + 2) as u16));
    assert(called.stack.drop_last() =~= s.stack);
}

/// A cycle moves each timer that is not zero down by exactly one and leaves
/// a timer at zero, unless the instruction of that cycle sets the timer. No
/// timer ever goes below zero.
pub proof fn lemma_timers_count_down(s: State, random: u8)
    ensures
        !(s.next_instr() is LDTX) ==> s.step(random).delay_timer == (if s.delay_timer > 0 {
            s.delay_timer - 1
        } else {
            0
        }),
        !(s.next_instr() is LDS) ==> s.step(random).sound_timer == (if s.sound_timer > 0 {
            s.sound_timer - 1
        } else {
            0
        }),
        s.step(random).delay_timer >= 0,
        s.step(random).sound_timer >= 0,
{
    lemma_frames(s.advance(), s.next_instr());
}

/// Over any number of cycles of which none sets the delay timer, the timer
/// goes down by one per cycle until it is zero, and then stays at zero.
pub proof fn lemma_delay_timer_runs_down(s: State, randoms: Seq<u8>)
    requires
        forall|k: int|
            0 <= k < randoms.len() ==> !(#[trigger] s.run(randoms.take(k)).next_instr() is LDTX),
    ensures
        s.run(randoms).delay_timer == (if s.delay_timer >= randoms.len() {
            s.delay_timer - randoms.len()
        } else {
            0
        }),
    decreases randoms.len(),
{
    if randoms.len() > 0 {
        let earlier = randoms.drop_last();
        assert(randoms.take(randoms.len() - 1) == earlier);
        assert forall|k: int| 0 <= k < earlier.len() implies !(#[trigger] s.run(
            earlier.take(k),
        ).next_instr() is LDTX) by {
            assert(earlier.take(k) == randoms.take(k));
        }
        lemma_delay_timer_runs_down(s, earlier);
        lemma_timers_count_down(s.run(earlier), randoms.last());
    }
}

/// Over any number of cycles of which none sets the sound timer, the timer
/// goes down by one per cycle until it is zero, and then stays at zero.
pub proof fn lemma_sound_timer_runs_down(s: State, randoms: Seq<u8>)
    requires
        forall|k: int|
            0 <= k < randoms.len() ==> !(#[trigger] s.run(randoms.take(k)).next_instr() is LDS),
    ensures
        s.run(randoms).sound_timer == (if s.sound_timer >= randoms.len() {
            s.sound_timer - randoms.len()
        } else {
            0
        }),
    decreases randoms.len(),
{
    if randoms.len() > 0 {
        let earlier = randoms.drop_last();
        assert(randoms.take(randoms.len() - 1) == earlier);
        assert forall|k: int| 0 <= k < earlier.len() implies !(#[trigger] s.run(
            earlier.take(k),
        ).next_instr() is LDS) by {
            assert(earlier.take(k) == randoms.take(k));
        }
        lemma_sound_timer_runs_down(s, earlier);
        lemma_timers_count_down(s.run(earlier), randoms.last());
    }
}

/// A cycle whose instruction sets a timer from a register leaves the timer
/// at the register's value less the cycle's own tick.
pub proof fn lemma_timers_set(s: State, x: u8, random: u8)
    requires
        s.wf(),
        x < 16,
    ensures
        s.next_instr() == Instr::LDTX(x) ==> s.step(random).delay_timer == (if s.v[x as int]
            > 0 {
            s.v[x as int] - 1
        } else {
            0
        }),
        s.next_instr() == Instr::LDS(x) ==> s.step(random).sound_timer == (if s.v[x as int] > 0 {
            s.v[x as int] - 1
        } else {
            0
        }),
{
}

/// While the key that a key-wait names is up, a cycle leaves the program
/// counter, the memory and the registers as they are, so that the next cycle
/// runs the same instruction again. Once the key is down, the cycle moves on
/// to the instruction behind the key-wait.
pub proof fn lemma_key_wait(s: State, x: u8, random: u8)
    requires
        s.wf(),
        s.pc + 1 < MEM_SIZE,
        s.next_instr() == Instr::LDK(x),
    ensures
        ({
            let t = s.step(random);
            let down = s.keys[s.v[x as int] as int];
            &&& !down ==> t.pc == s.pc && t.next_instr() == Instr::LDK(x)
            &&& down ==> t.pc == s.pc + 2
            &&& t.memory == s.memory
            &&& t.v == s.v
            &&& t.keys == s.keys
        }),
{
}

/// While the key that a key-wait names stays up, the console stays at the
/// key-wait however many cycles run: the program counter, the memory, the
/// registers and the call stack do not change.
pub proof fn lemma_key_wait_holds(s: State, x: u8, randoms: Seq<u8>)
    requires
        s.wf(),
        s.pc + 1 < MEM_SIZE,
        s.next_instr() == Instr::LDK(x),
        !s.keys[s.v[x as int] as int],
    ensures
        ({
            let t = s.run(randoms);
            &&& t.pc == s.pc
            &&& t.next_instr() == Instr::LDK(x)
            &&& t.memory == s.memory
            &&& t.v == s.v
            &&& t.keys == s.keys
            &&& t.stack == s.stack
            &&& t.i == s.i
            &&& t.display == s.display
        }),
    decreases randoms.len(),
{
    if randoms.len() > 0 {
        let earlier = randoms.drop_last();
        lemma_key_wait_holds(s, x, earlier);
        let before = s.run(earlier);
        assert(before.wf());
        lemma_key_wait(before, x, randoms.last());
    }
}

/// A cycle that does not raise the redraw hint leaves the display as it is.
pub proof fn lemma_redraw_hint_covers_every_change(s: State, random: u8)
    requires
        !s.redraws(),
    ensures
        s.step(random).display == s.display,
{
    lemma_frames(s.advance(), s.next_instr());
}

/// No cycle changes the keys or the historical behaviours chosen.
pub proof fn lemma_step_keeps_keys_and_quirks(s: State, random: u8)
    ensures
        s.step(random).keys == s.keys,
        s.step(random).quirks == s.quirks,
{
    lemma_frames(s.advance(), s.next_instr());
}

/// The font instruction sets I to the font's base address plus five times
/// the value of the register, for every value.
pub proof fn lemma_font_address(s: State, x: u8, random: u8)
    requires
        s.wf(),
        x < 16,
    ensures
        s.exec(Instr::LDF(x), random).i == FONT_ADDR + 5 * s.v[x as int],
{
}

/// In a fresh console the five bytes from the address of a digit on are the
/// rows of that digit's glyph.
pub proof fn lemma_font_installed(quirks: Quirks, digit: int, row: int)
    requires
        0 <= digit < 16,
        0 <= row < 5,
    ensures
        State::initial(quirks).memory[FONT_ADDR + 5 * digit + row] == FONT[digit][row],
{
    assert(font_byte(5 * digit + row) == FONT[digit][row]);
}

/// The three decimal digits of a byte are below ten, and their weighted sum
/// is the byte.
pub proof fn lemma_decimal_digits(value: u8)
    ensures
        decimal_digit(value, 100) < 10,
        decimal_digit(value, 10) < 10,
        decimal_digit(value, 1) < 10,
        100 * decimal_digit(value, 100) + 10 * decimal_digit(value, 10) + decimal_digit(value, 1)
            == value,
{
    let h = (value / 100) % 10;
    let d = (value / 10) % 10;
    let u = value % 10;
    assert(h < 10 && d < 10 && u < 10 && 100 * h + 10 * d + u == value) by (bit_vector)
        requires
            h == (value / 100) % 10,
            d == (value / 10) % 10,
            u == value % 10,
    ;
}

/// Storing the decimal digits of a register writes three digits whose
/// weighted sum is the register's value.
pub proof fn lemma_bcd_digits(s: State, x: u8, random: u8)
    requires
        s.wf(),
        x < 16,
        s.i + 2 < MEM_SIZE,
    ensures
        ({
            let t = s.exec(Instr::LDB(x), random);
            let h = t.memory[s.i as int];
            let d = t.memory[s.i + 1];
            let u = t.memory[s.i + 2];
            &&& h < 10 && d < 10 && u < 10
            &&& 100 * h + 10 * d + u == s.v[x as int]
        }),
{
    lemma_decimal_digits(s.v[x as int]);
}

} // verus!
