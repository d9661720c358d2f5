//! Batch conversion of assembly sources to Intel HEX: word-size directive
//! handling, output naming, log lines and the per-batch state machine that
//! drives the assembler and the hex converter.

pub mod bits;
pub mod text;
pub mod preprocess;
pub mod paths;
pub mod log;
pub mod pipeline;
