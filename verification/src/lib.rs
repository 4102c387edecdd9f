//! A CHIP-8 interpreter core: machine state, instruction decoding and the
//! dispatch tables, with every instruction specified over an abstract
//! `Machine` model.

pub mod machine;
pub mod chip8;
pub mod laws;
pub mod op_laws;
pub mod platform;
mod random;
