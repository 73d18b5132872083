//! A CHIP-8 interpreter engine: memory, display buffer, keypad and the
//! fetch-decode-execute cycle, each with a machine-checked contract.

pub mod cpu;
pub mod fault;
pub mod host;
pub mod keypad;
pub mod machine;
pub mod ram;
pub mod stack;
pub mod theorems;
pub mod video;
