//! Performance counters accumulated by a core.
//!
//! `cycles` counts pipeline cycles, `stalls` counts stall cycles, `alu_ops`
//! and `mem_ops` count executed ALU and memory instructions. The in-order
//! pipelined core uses `stalls` for its stall cycles, `alu_ops` for its
//! execute cycles and `mem_ops` for its memory cycles.

use vstd::prelude::*;

verus! {

#[derive(Debug, Copy, Clone, PartialEq, Eq, Structural)]
pub struct Stats {
    pub cycles: u64,
    pub stalls: u64,
    pub alu_ops: u64,
    pub mem_ops: u64,
}

impl Stats {
    pub fn new() -> (s: Stats)
        ensures
            s == (Stats { cycles: 0, stalls: 0, alu_ops: 0, mem_ops: 0 }),
    {
        Stats { cycles: 0, stalls: 0, alu_ops: 0, mem_ops: 0 }
    }
}

} // verus!
