//! Driver core for the Swiss Army Knife Shield on a Raspberry Pi 4.
//!
//! The crate models the board's memory-mapped GPIO register block as an
//! owned, bounds-checked array of 32-bit words and proves the register
//! bit-field arithmetic of the three pin primitives (select a pin's
//! function, drive a level, read a level) as well as the two bit-banged
//! protocols layered on top of them: the 74HC595 shift-register byte
//! writer for the LED row and the TM1637 two-wire display writer.
//!
//! Every primitive operation is also recorded in an operation trace, so
//! that an unverified hardware shim can replay the exact sequence of
//! register writes and delays against the real mapped registers, and so
//! that tests can assert on the precise edge-by-edge signal trace a
//! protocol call produces.

use vstd::prelude::*;

pub mod gpio;
pub mod pins;
pub mod protocol;
pub mod registers;
