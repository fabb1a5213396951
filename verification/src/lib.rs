//! Verified core of an 8-bit CPU's CMP (compare) instruction family.
//!
//! The CMP instructions subtract an operand from the accumulator without
//! storing the difference, and derive five condition flags from it. The
//! operand comes from a general register, from the accumulator itself, or
//! from a byte of external memory addressed by the `h`/`l` register pair.
//! This crate holds the instruction semantics: operand selection, cycle
//! accounting, and the exact bit-level flag rules. Fetching the memory byte
//! is the caller's business; the crate says which address to ask for and
//! takes the fetched byte as an argument.

pub mod cpu;
pub mod exec;
pub mod flags;
pub mod parse;
