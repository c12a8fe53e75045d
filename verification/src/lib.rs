//! A small bytecode virtual machine for Lox, together with the scanner that
//! turns Lox source text into tokens.
//!
//! Runtime values are 64-bit IEEE 754 doubles. The machine never looks inside
//! one except to negate it, so the library carries each value as its bit
//! pattern and leaves the four binary operations to an arithmetic unit that the
//! caller passes in.

pub mod chunk;
pub mod grammar;
pub mod scanner;
mod text;
pub mod token;
pub mod value;
pub mod vm;
