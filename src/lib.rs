use vstd::prelude::*;

pub mod chip8;
pub mod font;
pub mod laws;
pub mod opcode;

pub use crate::chip8::{Chip8, ExecError, LoadError};

verus! {

} // verus!
