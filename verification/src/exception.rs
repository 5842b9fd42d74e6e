//! The closed set of architectural fault kinds.
//!
//! Each kind carries a 64-bit payload (the offending address, instruction
//! word, or program counter), has a fixed numeric code, and is either fatal
//! (execution stops) or not.

use vstd::prelude::*;

verus! {

#[derive(Debug, Copy, Clone, PartialEq, Eq, Structural)]
pub enum Exception {
    InstructionAddrMisaligned(u64),
    InstructionAccessFault(u64),
    IllegalInstruction(u64),
    Breakpoint(u64),
    LoadAccessMisaligned(u64),
    LoadAccessFault(u64),
    StoreAMOAddrMisaligned(u64),
    StoreAMOAccessFault(u64),
    EnvironmentCallFromUMode(u64),
    EnvironmentCallFromSMode(u64),
    EnvironmentCallFromMMode(u64),
    InstructionPageFault(u64),
    LoadPageFault(u64),
    StoreAMOPageFault(u64),
}

impl Exception {
    /// The 64-bit payload carried by the exception.
    pub open spec fn spec_value(self) -> u64 {
        match self {
            Exception::InstructionAddrMisaligned(addr) => addr,
            Exception::InstructionAccessFault(addr) => addr,
            Exception::IllegalInstruction(ins) => ins,
            Exception::Breakpoint(pc) => pc,
            Exception::LoadAccessMisaligned(addr) => addr,
            Exception::LoadAccessFault(addr) => addr,
            Exception::StoreAMOAddrMisaligned(addr) => addr,
            Exception::StoreAMOAccessFault(addr) => addr,
            Exception::EnvironmentCallFromUMode(pc) => pc,
            Exception::EnvironmentCallFromSMode(pc) => pc,
            Exception::EnvironmentCallFromMMode(pc) => pc,
            Exception::InstructionPageFault(addr) => addr,
            Exception::LoadPageFault(addr) => addr,
            Exception::StoreAMOPageFault(addr) => addr,
        }
    }

    /// The architectural cause code of the exception kind.
    pub open spec fn spec_code(self) -> u64 {
        match self {
            Exception::InstructionAddrMisaligned(_) => 0,
            Exception::InstructionAccessFault(_) => 1,
            Exception::IllegalInstruction(_) => 2,
            Exception::Breakpoint(_) => 3,
            Exception::LoadAccessMisaligned(_) => 4,
            Exception::LoadAccessFault(_) => 5,
            Exception::StoreAMOAddrMisaligned(_) => 6,
            Exception::StoreAMOAccessFault(_) => 7,
            Exception::EnvironmentCallFromUMode(_) => 8,
            Exception::EnvironmentCallFromSMode(_) => 9,
            Exception::EnvironmentCallFromMMode(_) => 11,
            Exception::InstructionPageFault(_) => 12,
            Exception::LoadPageFault(_) => 13,
            Exception::StoreAMOPageFault(_) => 15,
        }
    }

    /// Whether the exception terminates execution.
    pub open spec fn spec_is_fatal(self) -> bool {
        match self {
            Exception::InstructionAddrMisaligned(_) => true,
            Exception::InstructionAccessFault(_) => true,
            Exception::IllegalInstruction(_) => true,
            Exception::LoadAccessFault(_) => true,
            Exception::StoreAMOAddrMisaligned(_) => true,
            Exception::StoreAMOAccessFault(_) => true,
            _ => false,
        }
    }

    pub fn value(&self) -> (v: u64)
        ensures
            v == self.spec_value(),
    {
        match self {
            Exception::InstructionAddrMisaligned(addr) => *addr,
            Exception::InstructionAccessFault(addr) => *addr,
            Exception::IllegalInstruction(ins) => *ins,
            Exception::Breakpoint(pc) => *pc,
            Exception::LoadAccessMisaligned(addr) => *addr,
            Exception::LoadAccessFault(addr) => *addr,
            Exception::StoreAMOAddrMisaligned(addr) => *addr,
            Exception::StoreAMOAccessFault(addr) => *addr,
            Exception::EnvironmentCallFromUMode(pc) => *pc,
            Exception::EnvironmentCallFromSMode(pc) => *pc,
            Exception::EnvironmentCallFromMMode(pc) => *pc,
            Exception::InstructionPageFault(addr) => *addr,
            Exception::LoadPageFault(addr) => *addr,
            Exception::StoreAMOPageFault(addr) => *addr,
        }
    }

    pub fn code(&self) -> (c: u64)
        ensures
            c == self.spec_code(),
    {
        match self {
            Exception::InstructionAddrMisaligned(_) => 0,
            Exception::InstructionAccessFault(_) => 1,
            Exception::IllegalInstruction(_) => 2,
            Exception::Breakpoint(_) => 3,
            Exception::LoadAccessMisaligned(_) => 4,
            Exception::LoadAccessFault(_) => 5,
            Exception::StoreAMOAddrMisaligned(_) => 6,
            Exception::StoreAMOAccessFault(_) => 7,
            Exception::EnvironmentCallFromUMode(_) => 8,
            Exception::EnvironmentCallFromSMode(_) => 9,
            Exception::EnvironmentCallFromMMode(_) => 11,
            Exception::InstructionPageFault(_) => 12,
            Exception::LoadPageFault(_) => 13,
            Exception::StoreAMOPageFault(_) => 15,
        }
    }

    pub fn is_fatal(&self) -> (f: bool)
        ensures
            f == self.spec_is_fatal(),
    {
        match self {
            Exception::InstructionAddrMisaligned(_)
            | Exception::InstructionAccessFault(_)
            | Exception::LoadAccessFault(_)
            | Exception::StoreAMOAddrMisaligned(_)
            | Exception::StoreAMOAccessFault(_)
            | Exception::IllegalInstruction(_) => true,
            _ => false,
        }
    }
}

} // verus!
