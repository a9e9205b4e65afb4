//! A metered bytecode virtual machine that reaches a separately launched
//! process only through a tracer.
//!
//! - `machine` is the mathematical model: the state of the machine, what
//!   each instruction does to it, and what a run is.
//! - `interpreter` is the executable engine, proved against the model:
//!   registers, memory, gas, and the instructions that every edition has.
//! - `game_2` and `game_3` are the two editions built on it: bit flips in the
//!   traced process's memory, and in the executable before it is launched.
//! - `tracer` is what the machine asks of the traced process; `fake_tracer`
//!   is a tracer without a process.
//! - `codec` holds the byte encodings of operands and of values in memory.
//! - `laws` states what holds of the instruction set as a whole.
//! - `launcher` decodes bytecode that is handed in as a line of hexadecimal
//!   digits.
//! - `fileman` is the file broker's reading of a request line.
#![allow(non_upper_case_globals)]

pub mod codec;
pub mod fake_tracer;
pub mod fileman;
pub mod game_2;
pub mod game_3;
pub mod interpreter;
pub mod launcher;
pub mod laws;
pub mod machine;
pub mod tracer;
