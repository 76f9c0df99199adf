//! A CHIP-8 virtual machine whose behaviour is stated in contracts and
//! proved with Verus.
//!
//! - [`instructions`] decodes sixteen-bit instruction words.
//! - [`font`] holds the sixteen glyphs of the hexadecimal font.
//! - [`display`] says what drawing a sprite on the display means.
//! - [`machine`] is the mathematical model: the state of a console and the
//!   effect of every instruction and of a whole cycle on it.
//! - [`console`] is the executable console; its contracts are stated over
//!   the model.
//! - [`keypad`] lays the hexadecimal keypad out on a keyboard.
//! - [`theorems`] proves what holds of the model in general.
//!
//! A driver creates a [`Console`], loads a ROM, and then, over and over,
//! sets the keys that changed, asks [`Console::fault`] whether the next
//! cycle can run, and runs it with [`Console::cycle`].

pub mod console;
pub mod display;
pub mod font;
pub mod instructions;
pub mod keypad;
pub mod machine;
mod random;
pub mod theorems;

pub use console::{Console, LoadError};
pub use instructions::Instr;
pub use machine::{Behavior, Fault, Quirks, State};
