//! Decoder core for a fixed virtual-machine bytecode encoding: a bit-level
//! input cursor, the 256-slot opcode table with its registration builder,
//! and the recursive dispatch engine that maps an opcode prefix to the
//! handler registered for it. Beside the decoder stand the user-friendly
//! rendering of contract addresses and the plain decisions of the
//! method-dictionary packing path.

use vstd::prelude::*;

pub mod address;
pub mod cursor;
pub mod handlers;
pub mod methdict;
pub mod reference;

verus! {

/// A recoverable failure while reading the input stream: fewer bits remain
/// than the read requires.
#[derive(Clone, Copy, Debug, PartialEq, Eq, Structural)]
pub enum DecodeError {
    Truncated,
}

} // verus!
