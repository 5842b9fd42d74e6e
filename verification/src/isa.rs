//! Instruction-word field extraction and the common executor contract.
//!
//! A 32-bit instruction word is split into opcode, register and function
//! fields, and into the five immediate forms, each sign-extended to 64 bits
//! at decode time. The `Extension` trait is the capability set every
//! instruction family offers a core: decode (`id`), source-register
//! resolution (`ex`), effect computation (`wr`), and the dependency queries
//! used by the pipeline models.

use vstd::prelude::*;

use crate::bus::Bus;
use crate::exception::Exception;

verus! {

pub open spec fn spec_opcode(ins: u32) -> u32 {
    ins % 0x80
}

pub open spec fn spec_rd(ins: u32) -> u32 {
    (ins / 0x80) % 32
}

pub open spec fn spec_rs1(ins: u32) -> u32 {
    (ins / 0x8000) % 32
}

pub open spec fn spec_rs2(ins: u32) -> u32 {
    (ins / 0x10_0000) % 32
}

pub open spec fn spec_funct3(ins: u32) -> u32 {
    (ins / 0x1000) % 8
}

pub open spec fn spec_funct7(ins: u32) -> u32 {
    ins / 0x200_0000
}

/// I-form immediate: bits [31:20], sign-extended to 64 bits.
pub open spec fn spec_i_imm(ins: u32) -> u64 {
    let v = (ins / 0x10_0000) as u64;
    if v >= 0x800 {
        (v + 0xFFFF_FFFF_FFFF_F000) as u64
    } else {
        v
    }
}

/// S-form immediate: bits [31:25] over bits [11:7], sign-extended.
pub open spec fn spec_s_imm(ins: u32) -> u64 {
    let v = (spec_funct7(ins) * 32 + spec_rd(ins)) as u64;
    if v >= 0x800 {
        (v + 0xFFFF_FFFF_FFFF_F000) as u64
    } else {
        v
    }
}

/// U-form immediate: bits [31:12] placed at bits [31:12], sign-extended.
pub open spec fn spec_u_imm(ins: u32) -> u64 {
    let v = ((ins / 0x1000) * 0x1000) as u64;
    if v >= 0x8000_0000 {
        (v + 0xFFFF_FFFF_0000_0000) as u64
    } else {
        v
    }
}

/// B-form immediate: `{bit31, bit7, bits[30:25], bits[11:8], 0}`,
/// sign-extended from 13 bits.
pub open spec fn spec_b_imm(ins: u32) -> u64 {
    let b12 = (ins / 0x8000_0000) as u64;
    let b11 = ((ins / 0x80) % 2) as u64;
    let b10_5 = ((ins / 0x200_0000) % 64) as u64;
    let b4_1 = ((ins / 0x100) % 16) as u64;
    let v = (b12 * 0x1000 + b11 * 0x800 + b10_5 * 0x20 + b4_1 * 2) as u64;
    if v >= 0x1000 {
        (v + 0xFFFF_FFFF_FFFF_E000) as u64
    } else {
        v
    }
}

/// J-form immediate: `{bit31, bits[19:12], bit20, bits[30:21], 0}`,
/// sign-extended from 21 bits.
pub open spec fn spec_j_imm(ins: u32) -> u64 {
    let b20 = (ins / 0x8000_0000) as u64;
    let b19_12 = ((ins / 0x1000) % 0x100) as u64;
    let b11 = ((ins / 0x10_0000) % 2) as u64;
    let b10_1 = ((ins / 0x20_0000) % 0x400) as u64;
    let v = (b20 * 0x10_0000 + b19_12 * 0x1000 + b11 * 0x800 + b10_1 * 2) as u64;
    if v >= 0x10_0000 {
        (v + 0xFFFF_FFFF_FFE0_0000) as u64
    } else {
        v
    }
}

pub fn opcode(ins: u32) -> (r: u32)
    ensures
        r == spec_opcode(ins),
{
    ins % 0x80
}

pub fn rd(ins: u32) -> (r: usize)
    ensures
        r == spec_rd(ins),
        r < 32,
{
    ((ins / 0x80) % 32) as usize
}

pub fn rs1(ins: u32) -> (r: usize)
    ensures
        r == spec_rs1(ins),
        r < 32,
{
    ((ins / 0x8000) % 32) as usize
}

pub fn rs2(ins: u32) -> (r: usize)
    ensures
        r == spec_rs2(ins),
        r < 32,
{
    ((ins / 0x10_0000) % 32) as usize
}

pub fn funct3(ins: u32) -> (r: u32)
    ensures
        r == spec_funct3(ins),
{
    (ins / 0x1000) % 8
}

pub fn funct7(ins: u32) -> (r: u32)
    ensures
        r == spec_funct7(ins),
{
    ins / 0x200_0000
}

pub fn i_imm(ins: u32) -> (r: u64)
    ensures
        r == spec_i_imm(ins),
{
    let v = (ins / 0x10_0000) as u64;
    if v >= 0x800 {
        v + 0xFFFF_FFFF_FFFF_F000
    } else {
        v
    }
}

pub fn s_imm(ins: u32) -> (r: u64)
    ensures
        r == spec_s_imm(ins),
{
    let v = (funct7(ins) * 32 + ((ins / 0x80) % 32)) as u64;
    if v >= 0x800 {
        v + 0xFFFF_FFFF_FFFF_F000
    } else {
        v
    }
}

pub fn u_imm(ins: u32) -> (r: u64)
    ensures
        r == spec_u_imm(ins),
{
    let v = ((ins / 0x1000) * 0x1000) as u64;
    if v >= 0x8000_0000 {
        v + 0xFFFF_FFFF_0000_0000
    } else {
        v
    }
}

pub fn b_imm(ins: u32) -> (r: u64)
    ensures
        r == spec_b_imm(ins),
{
    let b12 = (ins / 0x8000_0000) as u64;
    let b11 = ((ins / 0x80) % 2) as u64;
    let b10_5 = ((ins / 0x200_0000) % 64) as u64;
    let b4_1 = ((ins / 0x100) % 16) as u64;
    let v = b12 * 0x1000 + b11 * 0x800 + b10_5 * 0x20 + b4_1 * 2;
    if v >= 0x1000 {
        v + 0xFFFF_FFFF_FFFF_E000
    } else {
        v
    }
}

pub fn j_imm(ins: u32) -> (r: u64)
    ensures
        r == spec_j_imm(ins),
{
    let b20 = (ins / 0x8000_0000) as u64;
    let b19_12 = ((ins / 0x1000) % 0x100) as u64;
    let b11 = ((ins / 0x10_0000) % 2) as u64;
    let b10_1 = ((ins / 0x20_0000) % 0x400) as u64;
    let v = b20 * 0x10_0000 + b19_12 * 0x1000 + b11 * 0x800 + b10_1 * 2;
    if v >= 0x10_0000 {
        v + 0xFFFF_FFFF_FFE0_0000
    } else {
        v
    }
}

/// The effect of one instruction on the architectural state: the register
/// file and RAM contents after it, and the next program counter (or the
/// exception it raised, leaving registers and memory as they were).
pub struct Effect {
    pub regs: Seq<u64>,
    pub mem: Seq<u8>,
    pub next: Result<u64, Exception>,
}

/// The capability set of an instruction family.
///
/// `id` decodes a word; `ex` substitutes the contents of the referenced
/// source registers into the source slots; `wr` applies the instruction's
/// effect; the remaining methods report the dependencies that the pipeline
/// models track. Each executable method is pinned to the family's spec-level
/// model, so a core generic over `Extension` gets exact semantics.
pub trait Extension: Sized {
    /// The decoded instruction, or `IllegalInstruction`.
    spec fn spec_id(ins: u32) -> Result<Self, Exception>;

    /// Source-register index fields are in range (holds before `ex`).
    spec fn srcs_ok(self) -> bool;

    /// The destination-register index field, if any, is in range.
    spec fn dst_ok(self) -> bool;

    /// The instruction with source-register indices replaced by values.
    spec fn spec_ex(self, regs: Seq<u64>) -> Self;

    /// The instruction's effect on registers, memory and the program counter.
    spec fn spec_wr(self, pc: u64, regs: Seq<u64>, mem: Seq<u8>) -> Effect;

    spec fn spec_src_regs(self) -> Seq<u64>;

    spec fn spec_dst_reg(self) -> Option<u64>;

    spec fn spec_src_mem_addr(self) -> Option<u64>;

    spec fn spec_dst_mem_addr(self) -> Option<u64>;

    spec fn spec_is_ld(self) -> bool;

    spec fn spec_is_st(self) -> bool;

    spec fn spec_is_br(self) -> bool;

    spec fn spec_is_jmp(self) -> bool;

    fn id(ins: u32) -> (r: Result<Self, Exception>)
        ensures
            r == Self::spec_id(ins),
            r matches Ok(v) ==> v.srcs_ok() && v.dst_ok(),
    ;

    fn ex(self, regs: &Vec<u64>) -> (r: Self)
        requires
            self.srcs_ok(),
            regs@.len() == 32,
        ensures
            r == self.spec_ex(regs@),
            self.dst_ok() ==> r.dst_ok(),
    ;

    fn wr(self, pc: u64, regs: &mut Vec<u64>, bus: &mut Bus) -> (r: Result<u64, Exception>)
        requires
            self.dst_ok(),
            old(regs)@.len() == 32,
            old(bus).wf(),
        ensures
            final(bus).wf(),
            final(regs)@.len() == 32,
            ({
                let eff = self.spec_wr(pc, old(regs)@, old(bus).mem@);
                &&& final(regs)@ == eff.regs
                &&& final(bus).mem@ == eff.mem
                &&& r == eff.next
            }),
    ;

    fn src_regs(&self) -> (r: Vec<u64>)
        ensures
            r@ == self.spec_src_regs(),
    ;

    fn dst_reg(&self) -> (r: Option<u64>)
        ensures
            r == self.spec_dst_reg(),
    ;

    fn src_mem_addr(&self) -> (r: Option<u64>)
        ensures
            r == self.spec_src_mem_addr(),
    ;

    fn dst_mem_addr(&self) -> (r: Option<u64>)
        ensures
            r == self.spec_dst_mem_addr(),
    ;

    fn is_ld(&self) -> (r: bool)
        ensures
            r == self.spec_is_ld(),
    ;

    fn is_st(&self) -> (r: bool)
        ensures
            r == self.spec_is_st(),
    ;

    fn is_br(&self) -> (r: bool)
        ensures
            r == self.spec_is_br(),
    ;

    fn is_jmp(&self) -> (r: bool)
        ensures
            r == self.spec_is_jmp(),
    ;
}

} // verus!
