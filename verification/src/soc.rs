//! State shared by all cores: the initial register file and the exit record.
//!
//! Every core owns a 32-entry register file whose index 0 is architecturally
//! tied to zero and whose index 2 starts at the top address of RAM (stack
//! pointer convention), a program counter starting at `RAM_BASE`, a bus and
//! a set of counters.

use vstd::prelude::*;

use crate::bus::{Bus, RAM_END};
use crate::exception::Exception;
use crate::isa::{
    spec_b_imm, spec_funct3, spec_funct7, spec_i_imm, spec_j_imm, spec_opcode, spec_rd, spec_rs1,
    spec_rs2, spec_s_imm, spec_u_imm,
};
use crate::mem::Bits;
use crate::ops;
use crate::ops::{as_signed, spec_sext16, spec_sext32, spec_sext8, spec_sra64, spec_wrap_add};
use crate::rv32i::jalr_target;
use crate::stats::Stats;

verus! {

/// The initial register file: all zero but for the stack pointer.
pub open spec fn init_regs() -> Seq<u64> {
    Seq::new(32, |i: int| if i == 2 { RAM_END } else { 0u64 })
}

/// Build the initial register file.
pub fn new_regfile() -> (r: Vec<u64>)
    ensures
        r@ == init_regs(),
{
    let mut v: Vec<u64> = Vec::new();
    let mut i: usize = 0;
    while i < 32
        invariant
            i <= 32,
            v@.len() == i,
            forall|j: int| 0 <= j < i ==> v@[j] == 0,
        decreases 32 - i,
    {
        v.push(0);
        i = i + 1;
    }
    v.set(2, RAM_END);
    proof {
        assert(v@ =~= init_regs());
    }
    v
}

/// The source-register indices an encoded word reads, by opcode class.
pub open spec fn spec_word_src_regs(ins: u32) -> Seq<usize> {
    let opcode = spec_opcode(ins);
    if opcode == 0x67 {
        seq![spec_rs1(ins) as usize]
    } else if opcode == 0x63 {
        seq![spec_rs1(ins) as usize, spec_rs2(ins) as usize]
    } else if opcode == 0x03 {
        seq![spec_rs1(ins) as usize]
    } else if opcode == 0x23 {
        seq![spec_rs1(ins) as usize, spec_rs2(ins) as usize]
    } else if opcode == 0x13 {
        seq![spec_rs1(ins) as usize]
    } else if opcode == 0x33 {
        seq![spec_rs1(ins) as usize, spec_rs2(ins) as usize]
    } else {
        seq![]
    }
}

/// The value a load word reads (sign- or zero-extended by its width), or
/// the fault it raises.
pub open spec fn spec_word_ld(regs: Seq<u64>, mem: Seq<u8>, ins: u32) -> Result<u64, Exception> {
    let addr = spec_wrap_add(regs[spec_rs1(ins) as int], spec_i_imm(ins));
    let funct3 = spec_funct3(ins);
    if funct3 == 0 {
        match Bus::spec_load(mem, addr, 1) {
            Ok(v) => Ok(spec_sext8(v)),
            Err(e) => Err(e),
        }
    } else if funct3 == 1 {
        match Bus::spec_load(mem, addr, 2) {
            Ok(v) => Ok(spec_sext16(v)),
            Err(e) => Err(e),
        }
    } else if funct3 == 2 {
        match Bus::spec_load(mem, addr, 4) {
            Ok(v) => Ok(spec_sext32(v)),
            Err(e) => Err(e),
        }
    } else if funct3 == 3 {
        Bus::spec_load(mem, addr, 8)
    } else if funct3 == 4 {
        Bus::spec_load(mem, addr, 1)
    } else if funct3 == 5 {
        Bus::spec_load(mem, addr, 2)
    } else if funct3 == 6 {
        Bus::spec_load(mem, addr, 4)
    } else {
        Err(Exception::IllegalInstruction(ins as u64))
    }
}

/// The memory after a store word commits, or the fault it raises.
pub open spec fn spec_word_st(regs: Seq<u64>, mem: Seq<u8>, ins: u32) -> Result<Seq<u8>, Exception> {
    let addr = spec_wrap_add(regs[spec_rs1(ins) as int], spec_s_imm(ins));
    let value = regs[spec_rs2(ins) as int];
    let funct3 = spec_funct3(ins);
    if funct3 == 0 {
        Bus::spec_store(mem, addr, 1, value)
    } else if funct3 == 1 {
        Bus::spec_store(mem, addr, 2, value)
    } else if funct3 == 2 {
        Bus::spec_store(mem, addr, 4, value)
    } else if funct3 == 3 {
        Bus::spec_store(mem, addr, 8, value)
    } else {
        Err(Exception::IllegalInstruction(ins as u64))
    }
}

/// A jump word's `(target, link)` pair, computed at the instruction's own
/// program counter.
pub open spec fn spec_word_jmp(regs: Seq<u64>, pc: u64, ins: u32) -> Result<(u64, u64), Exception> {
    let opcode = spec_opcode(ins);
    if opcode == 0x6f {
        Ok((spec_wrap_add(pc, spec_j_imm(ins)), spec_wrap_add(pc, 4)))
    } else if opcode == 0x67 {
        Ok((jalr_target(regs[spec_rs1(ins) as int], spec_i_imm(ins)), spec_wrap_add(pc, 4)))
    } else {
        Err(Exception::IllegalInstruction(ins as u64))
    }
}

/// A branch word's redirect target if taken (computed at the instruction's
/// own program counter), `None` if not taken.
pub open spec fn spec_word_br(regs: Seq<u64>, pc: u64, ins: u32) -> Result<Option<u64>, Exception> {
    let a = regs[spec_rs1(ins) as int];
    let b = regs[spec_rs2(ins) as int];
    let target = spec_wrap_add(pc, spec_b_imm(ins));
    let funct3 = spec_funct3(ins);
    if spec_opcode(ins) != 0x63 {
        Err(Exception::IllegalInstruction(ins as u64))
    } else if funct3 == 0 {
        Ok(if a == b {
            Some(target)
        } else {
            None
        })
    } else if funct3 == 1 {
        Ok(if a != b {
            Some(target)
        } else {
            None
        })
    } else if funct3 == 4 {
        Ok(if as_signed(a) < as_signed(b) {
            Some(target)
        } else {
            None
        })
    } else if funct3 == 5 {
        Ok(if as_signed(a) >= as_signed(b) {
            Some(target)
        } else {
            None
        })
    } else if funct3 == 6 {
        Ok(if a < b {
            Some(target)
        } else {
            None
        })
    } else if funct3 == 7 {
        Ok(if a >= b {
            Some(target)
        } else {
            None
        })
    } else {
        Err(Exception::IllegalInstruction(ins as u64))
    }
}

/// An ALU word's result (LUI, AUIPC, the immediate-form and register-form
/// operations), computed at the instruction's own program counter.
pub open spec fn spec_word_alu(regs: Seq<u64>, pc: u64, ins: u32) -> Result<u64, Exception> {
    let opcode = spec_opcode(ins);
    let funct3 = spec_funct3(ins);
    let funct7 = spec_funct7(ins);
    let a = regs[spec_rs1(ins) as int];
    let b = regs[spec_rs2(ins) as int];
    let imm = spec_i_imm(ins);
    let shamt = spec_rs2(ins) as u64;
    if opcode == 0x37 {
        Ok(spec_u_imm(ins))
    } else if opcode == 0x17 {
        Ok(spec_wrap_add(pc, spec_u_imm(ins)))
    } else if opcode == 0x13 {
        if funct3 == 0 {
            Ok(spec_wrap_add(a, imm))
        } else if funct3 == 2 {
            Ok(
                if as_signed(a) < as_signed(imm) {
                    1
                } else {
                    0
                },
            )
        } else if funct3 == 3 {
            Ok(
                if a < imm {
                    1
                } else {
                    0
                },
            )
        } else if funct3 == 4 {
            Ok(a ^ imm)
        } else if funct3 == 6 {
            Ok(a | imm)
        } else if funct3 == 7 {
            Ok(a & imm)
        } else if funct3 == 1 && funct7 == 0 {
            Ok(a << shamt)
        } else if funct3 == 5 && funct7 == 0 {
            Ok(a >> shamt)
        } else if funct3 == 5 && funct7 == 0x20 {
            Ok(spec_sra64(a, shamt))
        } else {
            Err(Exception::IllegalInstruction(ins as u64))
        }
    } else if opcode == 0x33 {
        if funct3 == 0 && funct7 == 0 {
            Ok(spec_wrap_add(a, b))
        } else if funct3 == 0 && funct7 == 0x20 {
            Ok(ops::spec_wrap_sub(a, b))
        } else if funct3 == 1 && funct7 == 0 {
            Ok(a << (b % 32))
        } else if funct3 == 2 && funct7 == 0 {
            Ok(
                if as_signed(a) < as_signed(b) {
                    1
                } else {
                    0
                },
            )
        } else if funct3 == 3 && funct7 == 0 {
            Ok(
                if a < b {
                    1
                } else {
                    0
                },
            )
        } else if funct3 == 4 && funct7 == 0 {
            Ok(a ^ b)
        } else if funct3 == 5 && funct7 == 0 {
            Ok(a >> (b % 32))
        } else if funct3 == 5 && funct7 == 0x20 {
            Ok(spec_sra64(a, b % 32))
        } else if funct3 == 6 && funct7 == 0 {
            Ok(a | b)
        } else if funct3 == 7 && funct7 == 0 {
            Ok(a & b)
        } else {
            Err(Exception::IllegalInstruction(ins as u64))
        }
    } else {
        Err(Exception::IllegalInstruction(ins as u64))
    }
}

/// Source-register indices of an encoded word.
pub fn word_src_regs(ins: u32) -> (r: Vec<usize>)
    ensures
        r@ == spec_word_src_regs(ins),
{
    let opcode = crate::isa::opcode(ins);
    let mut v: Vec<usize> = Vec::new();
    if opcode == 0x67 || opcode == 0x03 || opcode == 0x13 {
        v.push(crate::isa::rs1(ins));
    } else if opcode == 0x63 || opcode == 0x23 || opcode == 0x33 {
        v.push(crate::isa::rs1(ins));
        v.push(crate::isa::rs2(ins));
    }
    proof {
        assert(v@ =~= spec_word_src_regs(ins));
    }
    v
}

/// Execute a load word against the register file and bus.
pub fn word_ld(regs: &Vec<u64>, bus: &Bus, ins: u32) -> (r: Result<u64, Exception>)
    requires
        regs@.len() == 32,
        bus.wf(),
    ensures
        r == spec_word_ld(regs@, bus.mem@, ins),
{
    let addr = ops::wrap_add(regs[crate::isa::rs1(ins)], crate::isa::i_imm(ins));
    let funct3 = crate::isa::funct3(ins);
    if funct3 == 0 {
        match bus.load(addr, Bits { size: 1 }) {
            Ok(v) => Ok(ops::sext8(v)),
            Err(e) => Err(e),
        }
    } else if funct3 == 1 {
        match bus.load(addr, Bits { size: 2 }) {
            Ok(v) => Ok(ops::sext16(v)),
            Err(e) => Err(e),
        }
    } else if funct3 == 2 {
        match bus.load(addr, Bits { size: 4 }) {
            Ok(v) => Ok(ops::sext32(v)),
            Err(e) => Err(e),
        }
    } else if funct3 == 3 {
        bus.load(addr, Bits { size: 8 })
    } else if funct3 == 4 {
        bus.load(addr, Bits { size: 1 })
    } else if funct3 == 5 {
        bus.load(addr, Bits { size: 2 })
    } else if funct3 == 6 {
        bus.load(addr, Bits { size: 4 })
    } else {
        Err(Exception::IllegalInstruction(ins as u64))
    }
}

/// Execute a store word against the register file and bus.
pub fn word_st(regs: &Vec<u64>, bus: &mut Bus, ins: u32) -> (r: Result<(), Exception>)
    requires
        regs@.len() == 32,
        old(bus).wf(),
    ensures
        final(bus).wf(),
        match spec_word_st(regs@, old(bus).mem@, ins) {
            Ok(m2) => r == Ok::<(), Exception>(()) && final(bus).mem@ == m2,
            Err(e) => r == Err::<(), Exception>(e) && final(bus).mem@ == old(bus).mem@,
        },
{
    let addr = ops::wrap_add(regs[crate::isa::rs1(ins)], crate::isa::s_imm(ins));
    let value = regs[crate::isa::rs2(ins)];
    let funct3 = crate::isa::funct3(ins);
    if funct3 == 0 {
        bus.store(addr, Bits { size: 1 }, value)
    } else if funct3 == 1 {
        bus.store(addr, Bits { size: 2 }, value)
    } else if funct3 == 2 {
        bus.store(addr, Bits { size: 4 }, value)
    } else if funct3 == 3 {
        bus.store(addr, Bits { size: 8 }, value)
    } else {
        Err(Exception::IllegalInstruction(ins as u64))
    }
}

/// Execute a jump word at program counter `pc`.
pub fn word_jmp(regs: &Vec<u64>, pc: u64, ins: u32) -> (r: Result<(u64, u64), Exception>)
    requires
        regs@.len() == 32,
    ensures
        r == spec_word_jmp(regs@, pc, ins),
{
    let opcode = crate::isa::opcode(ins);
    if opcode == 0x6f {
        Ok((ops::wrap_add(pc, crate::isa::j_imm(ins)), ops::wrap_add(pc, 4)))
    } else if opcode == 0x67 {
        let t = ops::wrap_add(regs[crate::isa::rs1(ins)], crate::isa::i_imm(ins));
        Ok((t - t % 2, ops::wrap_add(pc, 4)))
    } else {
        Err(Exception::IllegalInstruction(ins as u64))
    }
}

/// Execute a branch word at program counter `pc`.
pub fn word_br(regs: &Vec<u64>, pc: u64, ins: u32) -> (r: Result<Option<u64>, Exception>)
    requires
        regs@.len() == 32,
    ensures
        r == spec_word_br(regs@, pc, ins),
{
    let a = regs[crate::isa::rs1(ins)];
    let b = regs[crate::isa::rs2(ins)];
    let target = ops::wrap_add(pc, crate::isa::b_imm(ins));
    let funct3 = crate::isa::funct3(ins);
    if crate::isa::opcode(ins) != 0x63 {
        Err(Exception::IllegalInstruction(ins as u64))
    } else if funct3 == 0 {
        Ok(if a == b {
            Some(target)
        } else {
            None
        })
    } else if funct3 == 1 {
        Ok(if a != b {
            Some(target)
        } else {
            None
        })
    } else if funct3 == 4 {
        Ok(if ops::signed_lt(a, b) {
            Some(target)
        } else {
            None
        })
    } else if funct3 == 5 {
        Ok(if !ops::signed_lt(a, b) {
            Some(target)
        } else {
            None
        })
    } else if funct3 == 6 {
        Ok(if a < b {
            Some(target)
        } else {
            None
        })
    } else if funct3 == 7 {
        Ok(if a >= b {
            Some(target)
        } else {
            None
        })
    } else {
        Err(Exception::IllegalInstruction(ins as u64))
    }
}

/// Execute an ALU word at program counter `pc`.
pub fn word_alu(regs: &Vec<u64>, pc: u64, ins: u32) -> (r: Result<u64, Exception>)
    requires
        regs@.len() == 32,
    ensures
        r == spec_word_alu(regs@, pc, ins),
{
    let opcode = crate::isa::opcode(ins);
    let funct3 = crate::isa::funct3(ins);
    let funct7 = crate::isa::funct7(ins);
    let a = regs[crate::isa::rs1(ins)];
    let b = regs[crate::isa::rs2(ins)];
    let imm = crate::isa::i_imm(ins);
    let shamt = crate::isa::rs2(ins) as u64;
    if opcode == 0x37 {
        Ok(crate::isa::u_imm(ins))
    } else if opcode == 0x17 {
        Ok(ops::wrap_add(pc, crate::isa::u_imm(ins)))
    } else if opcode == 0x13 {
        if funct3 == 0 {
            Ok(ops::wrap_add(a, imm))
        } else if funct3 == 2 {
            Ok(if ops::signed_lt(a, imm) {
                1
            } else {
                0
            })
        } else if funct3 == 3 {
            Ok(if a < imm {
                1
            } else {
                0
            })
        } else if funct3 == 4 {
            Ok(a ^ imm)
        } else if funct3 == 6 {
            Ok(a | imm)
        } else if funct3 == 7 {
            Ok(a & imm)
        } else if funct3 == 1 && funct7 == 0 {
            Ok(a << shamt)
        } else if funct3 == 5 && funct7 == 0 {
            Ok(a >> shamt)
        } else if funct3 == 5 && funct7 == 0x20 {
            Ok(ops::sra64(a, shamt))
        } else {
            Err(Exception::IllegalInstruction(ins as u64))
        }
    } else if opcode == 0x33 {
        if funct3 == 0 && funct7 == 0 {
            Ok(ops::wrap_add(a, b))
        } else if funct3 == 0 && funct7 == 0x20 {
            Ok(ops::wrap_sub(a, b))
        } else if funct3 == 1 && funct7 == 0 {
            Ok(a << (b % 32))
        } else if funct3 == 2 && funct7 == 0 {
            Ok(if ops::signed_lt(a, b) {
                1
            } else {
                0
            })
        } else if funct3 == 3 && funct7 == 0 {
            Ok(if a < b {
                1
            } else {
                0
            })
        } else if funct3 == 4 && funct7 == 0 {
            Ok(a ^ b)
        } else if funct3 == 5 && funct7 == 0 {
            Ok(a >> (b % 32))
        } else if funct3 == 5 && funct7 == 0x20 {
            Ok(ops::sra64(a, b % 32))
        } else if funct3 == 6 && funct7 == 0 {
            Ok(a | b)
        } else if funct3 == 7 && funct7 == 0 {
            Ok(a & b)
        } else {
            Err(Exception::IllegalInstruction(ins as u64))
        }
    } else {
        Err(Exception::IllegalInstruction(ins as u64))
    }
}

/// The word-level capability set consumed by the in-order pipelined core:
/// field and immediate extraction, opcode-class predicates, and the
/// word-level execution helpers, stated against the implementor's register
/// file, memory and program counter.
pub trait Isa: Sized {
    /// The implementor's register file.
    spec fn isa_regs(&self) -> Seq<u64>;

    /// The implementor's RAM contents.
    spec fn isa_mem(&self) -> Seq<u8>;

    /// The implementor's program counter.
    spec fn isa_pc(&self) -> u64;

    /// The register file has 32 entries and the RAM fills its window.
    spec fn isa_wf(&self) -> bool;

    proof fn isa_wf_facts(&self)
        requires
            self.isa_wf(),
        ensures
            self.isa_regs().len() == 32,
            self.isa_mem().len() == crate::bus::RAM_SIZE,
    ;

    fn opcode(ins: u32) -> (r: u32)
        ensures
            r == spec_opcode(ins),
    ;

    fn is_ld(ins: u32) -> (r: bool)
        ensures
            r == (spec_opcode(ins) == 0x03),
    ;

    fn is_st(ins: u32) -> (r: bool)
        ensures
            r == (spec_opcode(ins) == 0x23),
    ;

    fn is_br(ins: u32) -> (r: bool)
        ensures
            r == (spec_opcode(ins) == 0x63),
    ;

    fn is_jmp(ins: u32) -> (r: bool)
        ensures
            r == (spec_opcode(ins) == 0x6f || spec_opcode(ins) == 0x67),
    ;

    fn is_zicsr(ins: u32) -> (r: bool)
        ensures
            r == (spec_opcode(ins) == 0x73),
    ;

    fn is_alu_op(ins: u32) -> (r: bool)
        ensures
            r == (spec_opcode(ins) == 0x13 || spec_opcode(ins) == 0x33),
    ;

    fn rd(ins: u32) -> (r: usize)
        ensures
            r == spec_rd(ins),
            r < 32,
    ;

    fn rs1(ins: u32) -> (r: usize)
        ensures
            r == spec_rs1(ins),
            r < 32,
    ;

    fn rs2(ins: u32) -> (r: usize)
        ensures
            r == spec_rs2(ins),
            r < 32,
    ;

    fn funct3(ins: u32) -> (r: u32)
        ensures
            r == spec_funct3(ins),
    ;

    fn funct7(ins: u32) -> (r: u32)
        ensures
            r == spec_funct7(ins),
    ;

    fn i_imm(ins: u32) -> (r: u64)
        ensures
            r == spec_i_imm(ins),
    ;

    fn s_imm(ins: u32) -> (r: u64)
        ensures
            r == spec_s_imm(ins),
    ;

    fn u_imm(ins: u32) -> (r: u64)
        ensures
            r == spec_u_imm(ins),
    ;

    fn b_imm(ins: u32) -> (r: u64)
        ensures
            r == spec_b_imm(ins),
    ;

    fn j_imm(ins: u32) -> (r: u64)
        ensures
            r == spec_j_imm(ins),
    ;

    fn pc(&self) -> (r: u64)
        ensures
            r == self.isa_pc(),
    ;

    fn ureg(&self, reg: usize) -> (r: u64)
        requires
            self.isa_wf(),
            reg < 32,
        ensures
            r == self.isa_regs()[reg as int],
    ;

    fn ireg(&self, reg: usize) -> (r: i64)
        requires
            self.isa_wf(),
            reg < 32,
        ensures
            r as int == as_signed(self.isa_regs()[reg as int]),
    ;

    fn src_regs(&self, ins: u32) -> (r: Vec<usize>)
        ensures
            r@ == spec_word_src_regs(ins),
    ;

    fn ld(&self, ins: u32) -> (r: Result<u64, Exception>)
        requires
            self.isa_wf(),
        ensures
            r == spec_word_ld(self.isa_regs(), self.isa_mem(), ins),
    ;

    fn st(&mut self, ins: u32) -> (r: Result<(), Exception>)
        requires
            old(self).isa_wf(),
        ensures
            final(self).isa_wf(),
            final(self).isa_regs() == old(self).isa_regs(),
            final(self).isa_pc() == old(self).isa_pc(),
            match spec_word_st(old(self).isa_regs(), old(self).isa_mem(), ins) {
                Ok(m2) => r == Ok::<(), Exception>(()) && final(self).isa_mem() == m2,
                Err(e) => r == Err::<(), Exception>(e) && final(self).isa_mem() == old(
                    self,
                ).isa_mem(),
            },
    ;

    fn jmp(&self, pc: u64, ins: u32) -> (r: Result<(u64, u64), Exception>)
        requires
            self.isa_wf(),
        ensures
            r == spec_word_jmp(self.isa_regs(), pc, ins),
    ;

    fn br(&self, pc: u64, ins: u32) -> (r: Result<Option<u64>, Exception>)
        requires
            self.isa_wf(),
        ensures
            r == spec_word_br(self.isa_regs(), pc, ins),
    ;

    fn alu(&self, pc: u64, ins: u32) -> (r: Result<u64, Exception>)
        requires
            self.isa_wf(),
        ensures
            r == spec_word_alu(self.isa_regs(), pc, ins),
    ;
}

/// How a core's run ended: the counters it accumulated and the fatal
/// exception that stopped it.
pub struct Exit {
    pub stats: Stats,
    pub ex: Exception,
}

impl Exit {
    pub fn from_ex(stats: Stats, ex: Exception) -> (r: Exit)
        ensures
            r.stats == stats,
            r.ex == ex,
    {
        Exit { stats, ex }
    }
}

} // verus!
