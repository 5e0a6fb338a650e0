//! Runtime core of a small bytecode toolchain: a register-based virtual
//! machine with a lifetime-tracking byte arena.
//!
//! The crate is organised leaves first: the compressed length and operand
//! encodings, the allocation tracker that owns the byte arena and the
//! allocation records, the register file with its call-frame stack, and the
//! fetch/decode/execute loop on top.

pub mod arena;
pub mod assembler;
pub mod graph;
pub mod lens;
pub mod regs;
pub mod semantics;
pub mod tracker;
pub mod memory;
pub mod opcode;
pub mod decimal;
pub mod interp;
pub mod errors;

