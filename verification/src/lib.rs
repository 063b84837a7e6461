//! A machine-code backend core: lowering of an optimized intermediate
//! representation into virtual instructions, coordination of an external
//! register allocator, and generation of binary instruction encodings
//! (prefixes, opcodes, ModR/M, immediates) for an x64-style target.

pub mod clocks;
pub mod compile;
pub mod dsl;
pub mod emit;
pub mod format;
pub mod limits;
pub mod strutil;
pub mod wast;
