//! A cycle-accounting functional simulator for a 64-bit RISC-V core
//! (RV64I base integer instruction set).
//!
//! The crate decodes raw 32-bit instruction words, executes them against a
//! flat little-endian memory bus, and reconstructs a performance profile
//! (cycles, stalls, ALU and memory operation counts) under several pipeline
//! models: a plain functional core, an in-order four-stage pipeline with
//! load-use stalls and branch flushes, and two out-of-order dependency-window
//! replay models.

pub mod atlas;
pub mod bus;
pub mod cv64e40p;
pub mod dart;
pub mod exception;
pub mod isa;
pub mod kronos;
pub mod mem;
pub mod ops;
pub mod replay;
pub mod rv32i;
pub mod rv64i;
pub mod soc;
pub mod stats;
pub mod zeus64;
