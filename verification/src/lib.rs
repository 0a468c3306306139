//! A CHIP-8 virtual machine: memory, call stack, registers, display surface
//! and the fetch-decode-execute engine, with every operation's effect stated
//! as a contract over a mathematical model of the machine.

pub mod cpu;
pub mod display;
pub mod keyboard;
pub mod laws;
pub mod machine;
pub mod ram;
pub mod register;
pub mod stack;
