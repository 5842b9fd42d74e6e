//! The 64-bit width extension family.
//!
//! Twelve variants: LWU, LD, SD, ADDIW, three word-immediate shifts and five
//! word-register operations. Word-width operations compute on the low 32
//! bits and sign-extend the result into 64 bits; word shift amounts use five
//! bits.

use vstd::prelude::*;

use crate::bus::Bus;
use crate::exception::Exception;
use crate::isa::{
    spec_funct3, spec_funct7, spec_i_imm, spec_opcode, spec_rd, spec_rs1, spec_rs2, spec_s_imm,
    Effect, Extension,
};
use crate::mem::Bits;
use crate::ops;
use crate::ops::{spec_addw, spec_sllw, spec_sraw, spec_srlw, spec_subw, spec_wrap_add};
use crate::rv32i::Rv32i;

verus! {

#[derive(Debug, PartialEq, Eq, Structural)]
pub enum Rv64i {
    Lwu { rd: u64, rs1: u64, imm: u64 },
    Ld { rd: u64, rs1: u64, imm: u64 },
    Sd { rs1: u64, rs2: u64, imm: u64 },
    Addiw { rd: u64, rs1: u64, imm: u64 },
    Slliw { rd: u64, rs1: u64, shamt: u32 },
    Srliw { rd: u64, rs1: u64, shamt: u32 },
    Sraiw { rd: u64, rs1: u64, shamt: u32 },
    Addw { rd: u64, rs1: u64, rs2: u64 },
    Subw { rd: u64, rs1: u64, rs2: u64 },
    Sllw { rd: u64, rs1: u64, rs2: u64 },
    Srlw { rd: u64, rs1: u64, rs2: u64 },
    Sraw { rd: u64, rs1: u64, rs2: u64 },
}

impl Extension for Rv64i {
    open spec fn spec_id(ins: u32) -> Result<Rv64i, Exception> {
        let opcode = spec_opcode(ins);
        let funct3 = spec_funct3(ins);
        let funct7 = spec_funct7(ins);
        let rd = spec_rd(ins) as u64;
        let rs1 = spec_rs1(ins) as u64;
        let rs2 = spec_rs2(ins) as u64;
        let shamt = (spec_rs2(ins) as u32) % 32;
        let illegal = Err::<Rv64i, Exception>(Exception::IllegalInstruction(ins as u64));
        if opcode == 0x03 {
            if funct3 == 6 {
                Ok(Rv64i::Lwu { rd, rs1, imm: spec_i_imm(ins) })
            } else if funct3 == 3 {
                Ok(Rv64i::Ld { rd, rs1, imm: spec_i_imm(ins) })
            } else {
                illegal
            }
        } else if opcode == 0x23 {
            if funct3 == 3 {
                Ok(Rv64i::Sd { rs1, rs2, imm: spec_s_imm(ins) })
            } else {
                illegal
            }
        } else if opcode == 0x1b {
            if funct3 == 0 {
                Ok(Rv64i::Addiw { rd, rs1, imm: spec_i_imm(ins) })
            } else if funct3 == 1 && funct7 == 0 {
                Ok(Rv64i::Slliw { rd, rs1, shamt })
            } else if funct3 == 5 && funct7 == 0 {
                Ok(Rv64i::Srliw { rd, rs1, shamt })
            } else if funct3 == 5 && funct7 == 0x20 {
                Ok(Rv64i::Sraiw { rd, rs1, shamt })
            } else {
                illegal
            }
        } else if opcode == 0x3b {
            if funct3 == 0 && funct7 == 0 {
                Ok(Rv64i::Addw { rd, rs1, rs2 })
            } else if funct3 == 0 && funct7 == 0x20 {
                Ok(Rv64i::Subw { rd, rs1, rs2 })
            } else if funct3 == 1 && funct7 == 0 {
                Ok(Rv64i::Sllw { rd, rs1, rs2 })
            } else if funct3 == 5 && funct7 == 0 {
                Ok(Rv64i::Srlw { rd, rs1, rs2 })
            } else if funct3 == 5 && funct7 == 0x20 {
                Ok(Rv64i::Sraw { rd, rs1, rs2 })
            } else {
                illegal
            }
        } else {
            illegal
        }
    }

    open spec fn srcs_ok(self) -> bool {
        match self {
            Rv64i::Lwu { rs1, .. } => rs1 < 32,
            Rv64i::Ld { rs1, .. } => rs1 < 32,
            Rv64i::Sd { rs1, rs2, .. } => rs1 < 32 && rs2 < 32,
            Rv64i::Addiw { rs1, .. } => rs1 < 32,
            Rv64i::Slliw { rs1, .. } => rs1 < 32,
            Rv64i::Srliw { rs1, .. } => rs1 < 32,
            Rv64i::Sraiw { rs1, .. } => rs1 < 32,
            Rv64i::Addw { rs1, rs2, .. } => rs1 < 32 && rs2 < 32,
            Rv64i::Subw { rs1, rs2, .. } => rs1 < 32 && rs2 < 32,
            Rv64i::Sllw { rs1, rs2, .. } => rs1 < 32 && rs2 < 32,
            Rv64i::Srlw { rs1, rs2, .. } => rs1 < 32 && rs2 < 32,
            Rv64i::Sraw { rs1, rs2, .. } => rs1 < 32 && rs2 < 32,
        }
    }

    open spec fn dst_ok(self) -> bool {
        match self.spec_dst_reg() {
            Some(rd) => rd < 32,
            None => true,
        }
    }

    open spec fn spec_ex(self, regs: Seq<u64>) -> Rv64i {
        match self {
            Rv64i::Lwu { rd, rs1, imm } => Rv64i::Lwu { rd, rs1: regs[rs1 as int], imm },
            Rv64i::Ld { rd, rs1, imm } => Rv64i::Ld { rd, rs1: regs[rs1 as int], imm },
            Rv64i::Sd { rs1, rs2, imm } => Rv64i::Sd {
                rs1: regs[rs1 as int],
                rs2: regs[rs2 as int],
                imm,
            },
            Rv64i::Addiw { rd, rs1, imm } => Rv64i::Addiw { rd, rs1: regs[rs1 as int], imm },
            Rv64i::Slliw { rd, rs1, shamt } => Rv64i::Slliw {
                rd,
                rs1: regs[rs1 as int],
                shamt: shamt % 32,
            },
            Rv64i::Srliw { rd, rs1, shamt } => Rv64i::Srliw {
                rd,
                rs1: regs[rs1 as int],
                shamt: shamt % 32,
            },
            Rv64i::Sraiw { rd, rs1, shamt } => Rv64i::Sraiw {
                rd,
                rs1: regs[rs1 as int],
                shamt: shamt % 32,
            },
            Rv64i::Addw { rd, rs1, rs2 } => Rv64i::Addw {
                rd,
                rs1: regs[rs1 as int],
                rs2: regs[rs2 as int],
            },
            Rv64i::Subw { rd, rs1, rs2 } => Rv64i::Subw {
                rd,
                rs1: regs[rs1 as int],
                rs2: regs[rs2 as int],
            },
            Rv64i::Sllw { rd, rs1, rs2 } => Rv64i::Sllw {
                rd,
                rs1: regs[rs1 as int],
                rs2: regs[rs2 as int],
            },
            Rv64i::Srlw { rd, rs1, rs2 } => Rv64i::Srlw {
                rd,
                rs1: regs[rs1 as int],
                rs2: regs[rs2 as int],
            },
            Rv64i::Sraw { rd, rs1, rs2 } => Rv64i::Sraw {
                rd,
                rs1: regs[rs1 as int],
                rs2: regs[rs2 as int],
            },
        }
    }

    open spec fn spec_wr(self, pc: u64, regs: Seq<u64>, mem: Seq<u8>) -> Effect {
        match self {
            Rv64i::Lwu { rd, rs1, imm } => Rv32i::load_effect(
                rd,
                spec_wrap_add(rs1, imm),
                4,
                |v: u64| v,
                pc,
                regs,
                mem,
            ),
            Rv64i::Ld { rd, rs1, imm } => Rv32i::load_effect(
                rd,
                spec_wrap_add(rs1, imm),
                8,
                |v: u64| v,
                pc,
                regs,
                mem,
            ),
            Rv64i::Sd { rs1, rs2, imm } => Rv32i::store_effect(
                spec_wrap_add(rs1, imm),
                8,
                rs2,
                pc,
                regs,
                mem,
            ),
            Rv64i::Addiw { rd, rs1, imm } => Rv32i::alu_effect(rd, spec_addw(rs1, imm), pc, regs, mem),
            Rv64i::Slliw { rd, rs1, shamt } => Rv32i::alu_effect(
                rd,
                spec_sllw(rs1, shamt % 32),
                pc,
                regs,
                mem,
            ),
            Rv64i::Srliw { rd, rs1, shamt } => Rv32i::alu_effect(
                rd,
                spec_srlw(rs1, shamt % 32),
                pc,
                regs,
                mem,
            ),
            Rv64i::Sraiw { rd, rs1, shamt } => Rv32i::alu_effect(
                rd,
                spec_sraw(rs1, shamt % 32),
                pc,
                regs,
                mem,
            ),
            Rv64i::Addw { rd, rs1, rs2 } => Rv32i::alu_effect(rd, spec_addw(rs1, rs2), pc, regs, mem),
            Rv64i::Subw { rd, rs1, rs2 } => Rv32i::alu_effect(rd, spec_subw(rs1, rs2), pc, regs, mem),
            Rv64i::Sllw { rd, rs1, rs2 } => Rv32i::alu_effect(
                rd,
                spec_sllw(rs1, (rs2 % 32) as u32),
                pc,
                regs,
                mem,
            ),
            Rv64i::Srlw { rd, rs1, rs2 } => Rv32i::alu_effect(
                rd,
                spec_srlw(rs1, (rs2 % 32) as u32),
                pc,
                regs,
                mem,
            ),
            Rv64i::Sraw { rd, rs1, rs2 } => Rv32i::alu_effect(
                rd,
                spec_sraw(rs1, (rs2 % 32) as u32),
                pc,
                regs,
                mem,
            ),
        }
    }

    open spec fn spec_src_regs(self) -> Seq<u64> {
        match self {
            Rv64i::Lwu { rs1, .. } => seq![rs1],
            Rv64i::Ld { rs1, .. } => seq![rs1],
            Rv64i::Sd { rs1, rs2, .. } => seq![rs1, rs2],
            Rv64i::Addiw { rs1, .. } => seq![rs1],
            Rv64i::Slliw { rs1, .. } => seq![rs1],
            Rv64i::Srliw { rs1, .. } => seq![rs1],
            Rv64i::Sraiw { rs1, .. } => seq![rs1],
            Rv64i::Addw { rs1, rs2, .. } => seq![rs1, rs2],
            Rv64i::Subw { rs1, rs2, .. } => seq![rs1, rs2],
            Rv64i::Sllw { rs1, rs2, .. } => seq![rs1, rs2],
            Rv64i::Srlw { rs1, rs2, .. } => seq![rs1, rs2],
            Rv64i::Sraw { rs1, rs2, .. } => seq![rs1, rs2],
        }
    }

    open spec fn spec_dst_reg(self) -> Option<u64> {
        match self {
            Rv64i::Lwu { rd, .. } => Some(rd),
            Rv64i::Ld { rd, .. } => Some(rd),
            Rv64i::Sd { .. } => None,
            Rv64i::Addiw { rd, .. } => Some(rd),
            Rv64i::Slliw { rd, .. } => Some(rd),
            Rv64i::Srliw { rd, .. } => Some(rd),
            Rv64i::Sraiw { rd, .. } => Some(rd),
            Rv64i::Addw { rd, .. } => Some(rd),
            Rv64i::Subw { rd, .. } => Some(rd),
            Rv64i::Sllw { rd, .. } => Some(rd),
            Rv64i::Srlw { rd, .. } => Some(rd),
            Rv64i::Sraw { rd, .. } => Some(rd),
        }
    }

    open spec fn spec_src_mem_addr(self) -> Option<u64> {
        match self {
            Rv64i::Lwu { rs1, imm, .. } => Some(spec_wrap_add(rs1, imm)),
            Rv64i::Ld { rs1, imm, .. } => Some(spec_wrap_add(rs1, imm)),
            _ => None,
        }
    }

    open spec fn spec_dst_mem_addr(self) -> Option<u64> {
        match self {
            Rv64i::Sd { rs1, imm, .. } => Some(spec_wrap_add(rs1, imm)),
            _ => None,
        }
    }

    open spec fn spec_is_ld(self) -> bool {
        match self {
            Rv64i::Lwu { .. } => true,
            Rv64i::Ld { .. } => true,
            _ => false,
        }
    }

    open spec fn spec_is_st(self) -> bool {
        match self {
            Rv64i::Sd { .. } => true,
            _ => false,
        }
    }

    open spec fn spec_is_br(self) -> bool {
        false
    }

    open spec fn spec_is_jmp(self) -> bool {
        false
    }

    fn id(ins: u32) -> (r: Result<Rv64i, Exception>) {
        let opcode = crate::isa::opcode(ins);
        let funct3 = crate::isa::funct3(ins);
        let funct7 = crate::isa::funct7(ins);
        let rd = crate::isa::rd(ins) as u64;
        let rs1 = crate::isa::rs1(ins) as u64;
        let rs2 = crate::isa::rs2(ins) as u64;
        let shamt = (crate::isa::rs2(ins) as u32) % 32;
        if opcode == 0x03 {
            if funct3 == 6 {
                Ok(Rv64i::Lwu { rd, rs1, imm: crate::isa::i_imm(ins) })
            } else if funct3 == 3 {
                Ok(Rv64i::Ld { rd, rs1, imm: crate::isa::i_imm(ins) })
            } else {
                Err(Exception::IllegalInstruction(ins as u64))
            }
        } else if opcode == 0x23 {
            if funct3 == 3 {
                Ok(Rv64i::Sd { rs1, rs2, imm: crate::isa::s_imm(ins) })
            } else {
                Err(Exception::IllegalInstruction(ins as u64))
            }
        } else if opcode == 0x1b {
            if funct3 == 0 {
                Ok(Rv64i::Addiw { rd, rs1, imm: crate::isa::i_imm(ins) })
            } else if funct3 == 1 && funct7 == 0 {
                Ok(Rv64i::Slliw { rd, rs1, shamt })
            } else if funct3 == 5 && funct7 == 0 {
                Ok(Rv64i::Srliw { rd, rs1, shamt })
            } else if funct3 == 5 && funct7 == 0x20 {
                Ok(Rv64i::Sraiw { rd, rs1, shamt })
            } else {
                Err(Exception::IllegalInstruction(ins as u64))
            }
        } else if opcode == 0x3b {
            if funct3 == 0 && funct7 == 0 {
                Ok(Rv64i::Addw { rd, rs1, rs2 })
            } else if funct3 == 0 && funct7 == 0x20 {
                Ok(Rv64i::Subw { rd, rs1, rs2 })
            } else if funct3 == 1 && funct7 == 0 {
                Ok(Rv64i::Sllw { rd, rs1, rs2 })
            } else if funct3 == 5 && funct7 == 0 {
                Ok(Rv64i::Srlw { rd, rs1, rs2 })
            } else if funct3 == 5 && funct7 == 0x20 {
                Ok(Rv64i::Sraw { rd, rs1, rs2 })
            } else {
                Err(Exception::IllegalInstruction(ins as u64))
            }
        } else {
            Err(Exception::IllegalInstruction(ins as u64))
        }
    }

    fn ex(self, regs: &Vec<u64>) -> (r: Rv64i) {
        match self {
            Rv64i::Lwu { rd, rs1, imm } => Rv64i::Lwu { rd, rs1: regs[rs1 as usize], imm },
            Rv64i::Ld { rd, rs1, imm } => Rv64i::Ld { rd, rs1: regs[rs1 as usize], imm },
            Rv64i::Sd { rs1, rs2, imm } => Rv64i::Sd {
                rs1: regs[rs1 as usize],
                rs2: regs[rs2 as usize],
                imm,
            },
            Rv64i::Addiw { rd, rs1, imm } => Rv64i::Addiw { rd, rs1: regs[rs1 as usize], imm },
            Rv64i::Slliw { rd, rs1, shamt } => Rv64i::Slliw {
                rd,
                rs1: regs[rs1 as usize],
                shamt: shamt % 32,
            },
            Rv64i::Srliw { rd, rs1, shamt } => Rv64i::Srliw {
                rd,
                rs1: regs[rs1 as usize],
                shamt: shamt % 32,
            },
            Rv64i::Sraiw { rd, rs1, shamt } => Rv64i::Sraiw {
                rd,
                rs1: regs[rs1 as usize],
                shamt: shamt % 32,
            },
            Rv64i::Addw { rd, rs1, rs2 } => Rv64i::Addw {
                rd,
                rs1: regs[rs1 as usize],
                rs2: regs[rs2 as usize],
            },
            Rv64i::Subw { rd, rs1, rs2 } => Rv64i::Subw {
                rd,
                rs1: regs[rs1 as usize],
                rs2: regs[rs2 as usize],
            },
            Rv64i::Sllw { rd, rs1, rs2 } => Rv64i::Sllw {
                rd,
                rs1: regs[rs1 as usize],
                rs2: regs[rs2 as usize],
            },
            Rv64i::Srlw { rd, rs1, rs2 } => Rv64i::Srlw {
                rd,
                rs1: regs[rs1 as usize],
                rs2: regs[rs2 as usize],
            },
            Rv64i::Sraw { rd, rs1, rs2 } => Rv64i::Sraw {
                rd,
                rs1: regs[rs1 as usize],
                rs2: regs[rs2 as usize],
            },
        }
    }

    fn wr(self, pc: u64, regs: &mut Vec<u64>, bus: &mut Bus) -> (r: Result<u64, Exception>) {
        match self {
            Rv64i::Lwu { rd, rs1, imm } => {
                let addr = ops::wrap_add(rs1, imm);
                match bus.load(addr, Bits { size: 4 }) {
                    Ok(v) => {
                        regs.set(rd as usize, v);
                        Ok(ops::wrap_add(pc, 4))
                    },
                    Err(e) => Err(e),
                }
            },
            Rv64i::Ld { rd, rs1, imm } => {
                let addr = ops::wrap_add(rs1, imm);
                match bus.load(addr, Bits { size: 8 }) {
                    Ok(v) => {
                        regs.set(rd as usize, v);
                        Ok(ops::wrap_add(pc, 4))
                    },
                    Err(e) => Err(e),
                }
            },
            Rv64i::Sd { rs1, rs2, imm } => {
                let addr = ops::wrap_add(rs1, imm);
                match bus.store(addr, Bits { size: 8 }, rs2) {
                    Ok(_) => Ok(ops::wrap_add(pc, 4)),
                    Err(e) => Err(e),
                }
            },
            Rv64i::Addiw { rd, rs1, imm } => {
                regs.set(rd as usize, ops::addw(rs1, imm));
                Ok(ops::wrap_add(pc, 4))
            },
            Rv64i::Slliw { rd, rs1, shamt } => {
                regs.set(rd as usize, ops::sllw(rs1, shamt % 32));
                Ok(ops::wrap_add(pc, 4))
            },
            Rv64i::Srliw { rd, rs1, shamt } => {
                regs.set(rd as usize, ops::srlw(rs1, shamt % 32));
                Ok(ops::wrap_add(pc, 4))
            },
            Rv64i::Sraiw { rd, rs1, shamt } => {
                regs.set(rd as usize, ops::sraw(rs1, shamt % 32));
                Ok(ops::wrap_add(pc, 4))
            },
            Rv64i::Addw { rd, rs1, rs2 } => {
                regs.set(rd as usize, ops::addw(rs1, rs2));
                Ok(ops::wrap_add(pc, 4))
            },
            Rv64i::Subw { rd, rs1, rs2 } => {
                regs.set(rd as usize, ops::subw(rs1, rs2));
                Ok(ops::wrap_add(pc, 4))
            },
            Rv64i::Sllw { rd, rs1, rs2 } => {
                regs.set(rd as usize, ops::sllw(rs1, (rs2 % 32) as u32));
                Ok(ops::wrap_add(pc, 4))
            },
            Rv64i::Srlw { rd, rs1, rs2 } => {
                regs.set(rd as usize, ops::srlw(rs1, (rs2 % 32) as u32));
                Ok(ops::wrap_add(pc, 4))
            },
            Rv64i::Sraw { rd, rs1, rs2 } => {
                regs.set(rd as usize, ops::sraw(rs1, (rs2 % 32) as u32));
                Ok(ops::wrap_add(pc, 4))
            },
        }
    }

    fn src_regs(&self) -> (r: Vec<u64>) {
        let mut v: Vec<u64> = Vec::new();
        match self {
            Rv64i::Lwu { rs1, .. } => {
                v.push(*rs1);
            },
            Rv64i::Ld { rs1, .. } => {
                v.push(*rs1);
            },
            Rv64i::Sd { rs1, rs2, .. } => {
                v.push(*rs1);
                v.push(*rs2);
            },
            Rv64i::Addiw { rs1, .. } => {
                v.push(*rs1);
            },
            Rv64i::Slliw { rs1, .. } => {
                v.push(*rs1);
            },
            Rv64i::Srliw { rs1, .. } => {
                v.push(*rs1);
            },
            Rv64i::Sraiw { rs1, .. } => {
                v.push(*rs1);
            },
            Rv64i::Addw { rs1, rs2, .. } => {
                v.push(*rs1);
                v.push(*rs2);
            },
            Rv64i::Subw { rs1, rs2, .. } => {
                v.push(*rs1);
                v.push(*rs2);
            },
            Rv64i::Sllw { rs1, rs2, .. } => {
                v.push(*rs1);
                v.push(*rs2);
            },
            Rv64i::Srlw { rs1, rs2, .. } => {
                v.push(*rs1);
                v.push(*rs2);
            },
            Rv64i::Sraw { rs1, rs2, .. } => {
                v.push(*rs1);
                v.push(*rs2);
            },
        }
        proof {
            assert(v@ =~= self.spec_src_regs());
        }
        v
    }

    fn dst_reg(&self) -> (r: Option<u64>) {
        match self {
            Rv64i::Lwu { rd, .. } => Some(*rd),
            Rv64i::Ld { rd, .. } => Some(*rd),
            Rv64i::Sd { .. } => None,
            Rv64i::Addiw { rd, .. } => Some(*rd),
            Rv64i::Slliw { rd, .. } => Some(*rd),
            Rv64i::Srliw { rd, .. } => Some(*rd),
            Rv64i::Sraiw { rd, .. } => Some(*rd),
            Rv64i::Addw { rd, .. } => Some(*rd),
            Rv64i::Subw { rd, .. } => Some(*rd),
            Rv64i::Sllw { rd, .. } => Some(*rd),
            Rv64i::Srlw { rd, .. } => Some(*rd),
            Rv64i::Sraw { rd, .. } => Some(*rd),
        }
    }

    fn src_mem_addr(&self) -> (r: Option<u64>) {
        match self {
            Rv64i::Lwu { rs1, imm, .. } => Some(ops::wrap_add(*rs1, *imm)),
            Rv64i::Ld { rs1, imm, .. } => Some(ops::wrap_add(*rs1, *imm)),
            _ => None,
        }
    }

    fn dst_mem_addr(&self) -> (r: Option<u64>) {
        match self {
            Rv64i::Sd { rs1, imm, .. } => Some(ops::wrap_add(*rs1, *imm)),
            _ => None,
        }
    }

    fn is_ld(&self) -> (r: bool) {
        match self {
            Rv64i::Lwu { .. } => true,
            Rv64i::Ld { .. } => true,
            _ => false,
        }
    }

    fn is_st(&self) -> (r: bool) {
        match self {
            Rv64i::Sd { .. } => true,
            _ => false,
        }
    }

    fn is_br(&self) -> (r: bool) {
        false
    }

    fn is_jmp(&self) -> (r: bool) {
        false
    }
}

/// Decode is total: every word either yields a variant whose register index
/// fields are all below 32, or exactly `IllegalInstruction` carrying the word.
pub proof fn lemma_decode_total64(ins: u32)
    ensures
        match Rv64i::spec_id(ins) {
            Ok(v) => v.srcs_ok() && v.dst_ok(),
            Err(e) => e == Exception::IllegalInstruction(ins as u64),
        },
{
}

/// A variant has no destination register exactly when it is a store (this
/// family has no branches).
pub proof fn lemma_dst_reg_none64(i: Rv64i)
    ensures
        i.spec_dst_reg() is None <==> (i.spec_is_br() || i.spec_is_st()),
{
}

/// Loads and stores exclude each other, and exclude branches and jumps.
pub proof fn lemma_ld_st_predicates64(i: Rv64i)
    ensures
        i.spec_is_ld() || i.spec_is_st() ==> i.spec_is_ld() != i.spec_is_st() && !i.spec_is_br()
            && !i.spec_is_jmp(),
{
}

/// `wr` keeps the register file 32 entries long and the RAM size fixed, and
/// an instruction that faults leaves registers and memory untouched.
pub proof fn lemma_wr_wf64(i: Rv64i, pc: u64, regs: Seq<u64>, mem: Seq<u8>)
    requires
        regs.len() == 32,
        mem.len() == crate::bus::RAM_SIZE,
        i.dst_ok(),
    ensures
        ({
            let eff = i.spec_wr(pc, regs, mem);
            &&& eff.regs.len() == 32
            &&& eff.mem.len() == mem.len()
            &&& (eff.next matches Err(_) ==> eff.regs == regs && eff.mem == mem)
        }),
{
    match i {
        Rv64i::Sd { rs1, rs2, imm } => {
            let addr = spec_wrap_add(rs1, imm);
            if crate::bus::in_ram(addr, 8) {
                crate::mem::lemma_le_store_frame(mem, addr - crate::bus::RAM_BASE, 8, rs2 as nat);
            }
        },
        _ => {},
    }
}

/// Writes to register 0 are discarded: an instruction whose destination is
/// register 0, committed and followed by the architectural re-zero of that
/// register, leaves the whole register file and the memory as they were.
pub proof fn lemma_zero_dst_discard64(i: Rv64i, pc: u64, regs: Seq<u64>, mem: Seq<u8>)
    requires
        regs.len() == 32,
        regs[0] == 0,
        i.spec_dst_reg() == Some(0u64),
    ensures
        i.spec_wr(pc, regs, mem).regs.update(0, 0u64) == regs,
        i.spec_wr(pc, regs, mem).mem == mem,
{
    let eff = i.spec_wr(pc, regs, mem);
    assert(eff.regs.update(0, 0u64) =~= regs);
}

/// Word-width semantics: each 32-bit word operation computes its 64-bit
/// wrapping counterpart on the low 32 bits and sign-extends the result, as
/// committed to the destination register by `wr`.
#[verifier::rlimit(50)]
pub proof fn lemma_word_width_semantics(rd: u64, a: u64, b: u64, pc: u64, regs: Seq<u64>, mem: Seq<u8>)
    requires
        rd < 32,
        regs.len() == 32,
    ensures
        (Rv64i::Addw { rd, rs1: a, rs2: b }).spec_wr(pc, regs, mem).regs[rd as int]
            == ops::spec_sext32(spec_wrap_add(a, b) % 0x1_0000_0000),
        (Rv64i::Subw { rd, rs1: a, rs2: b }).spec_wr(pc, regs, mem).regs[rd as int]
            == ops::spec_sext32(ops::spec_wrap_sub(a, b) % 0x1_0000_0000),
        (Rv64i::Sllw { rd, rs1: a, rs2: b }).spec_wr(pc, regs, mem).regs[rd as int]
            == ops::spec_sext32((((a % 0x1_0000_0000) as u32) << ((b % 32) as u32)) as u64),
        (Rv64i::Srlw { rd, rs1: a, rs2: b }).spec_wr(pc, regs, mem).regs[rd as int]
            == ops::spec_sext32((((a % 0x1_0000_0000) as u32) >> ((b % 32) as u32)) as u64),
        (Rv64i::Sraw { rd, rs1: a, rs2: b }).spec_wr(pc, regs, mem).regs[rd as int]
            == ops::spec_sext32(
            ops::spec_sra32((a % 0x1_0000_0000) as u32, (b % 32) as u32) as u64,
        ),
{
    vstd::arithmetic::div_mod::lemma_small_mod(
        (spec_wrap_add(a, b) % 0x1_0000_0000) as nat,
        0x1_0000_0000,
    );
    assert(ops::spec_sext32(spec_wrap_add(a, b)) == ops::spec_sext32(
        spec_wrap_add(a, b) % 0x1_0000_0000,
    ));
    vstd::arithmetic::div_mod::lemma_small_mod(
        (ops::spec_wrap_sub(a, b) % 0x1_0000_0000) as nat,
        0x1_0000_0000,
    );
    assert(ops::spec_sext32(ops::spec_wrap_sub(a, b)) == ops::spec_sext32(
        ops::spec_wrap_sub(a, b) % 0x1_0000_0000,
    ));
}

} // verus!
