//! A CHIP-8 virtual machine core whose instruction semantics are stated as a
//! mathematical model and proved of the executable interpreter.

pub mod cpu;
pub mod display;
pub mod display_laws;
pub mod fault;
pub mod instruction;
pub mod keypad;
pub mod machine_laws;
pub mod model;
pub mod random;
