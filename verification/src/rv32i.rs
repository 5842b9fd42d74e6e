//! The base 32-bit integer instruction family (executed on 64-bit state).
//!
//! Thirty-seven variants: LUI, AUIPC, JAL, JALR, six conditional branches,
//! five loads, three stores, nine immediate-form ALU operations (three of
//! them shifts) and eleven register-form ALU operations. Decode masks
//! immediate shift amounts to five bits.

use vstd::prelude::*;

use crate::bus::Bus;
use crate::exception::Exception;
use crate::isa::{
    spec_b_imm, spec_funct3, spec_funct7, spec_i_imm, spec_j_imm, spec_opcode, spec_rd, spec_rs1,
    spec_rs2, spec_s_imm, spec_u_imm, Effect, Extension,
};
use crate::mem::Bits;
use crate::ops;
use crate::ops::{
    as_signed, spec_sext16, spec_sext32, spec_sext8, spec_sra64, spec_wrap_add, spec_wrap_sub,
};

verus! {

#[derive(Debug, PartialEq, Eq, Structural, Copy, Clone)]
pub enum Rv32i {
    Lui { rd: u64, imm: u64 },
    Auipc { rd: u64, imm: u64 },
    Jal { rd: u64, imm: u64 },
    Jalr { rd: u64, rs1: u64, imm: u64 },
    Beq { rs1: u64, rs2: u64, imm: u64 },
    Bne { rs1: u64, rs2: u64, imm: u64 },
    Blt { rs1: u64, rs2: u64, imm: u64 },
    Bge { rs1: u64, rs2: u64, imm: u64 },
    Bltu { rs1: u64, rs2: u64, imm: u64 },
    Bgeu { rs1: u64, rs2: u64, imm: u64 },
    Lb { rd: u64, rs1: u64, imm: u64 },
    Lh { rd: u64, rs1: u64, imm: u64 },
    Lw { rd: u64, rs1: u64, imm: u64 },
    Lbu { rd: u64, rs1: u64, imm: u64 },
    Lhu { rd: u64, rs1: u64, imm: u64 },
    Sb { rs1: u64, rs2: u64, imm: u64 },
    Sh { rs1: u64, rs2: u64, imm: u64 },
    Sw { rs1: u64, rs2: u64, imm: u64 },
    Addi { rd: u64, rs1: u64, imm: u64 },
    Slti { rd: u64, rs1: u64, imm: u64 },
    Sltiu { rd: u64, rs1: u64, imm: u64 },
    Xori { rd: u64, rs1: u64, imm: u64 },
    Ori { rd: u64, rs1: u64, imm: u64 },
    Andi { rd: u64, rs1: u64, imm: u64 },
    Slli { rd: u64, rs1: u64, shamt: u32 },
    Srli { rd: u64, rs1: u64, shamt: u32 },
    Srai { rd: u64, rs1: u64, shamt: u32 },
    Add { rd: u64, rs1: u64, rs2: u64 },
    Sub { rd: u64, rs1: u64, rs2: u64 },
    Sll { rd: u64, rs1: u64, rs2: u64 },
    Slt { rd: u64, rs1: u64, rs2: u64 },
    Sltu { rd: u64, rs1: u64, rs2: u64 },
    Xor { rd: u64, rs1: u64, rs2: u64 },
    Srl { rd: u64, rs1: u64, rs2: u64 },
    Sra { rd: u64, rs1: u64, rs2: u64 },
    Or { rd: u64, rs1: u64, rs2: u64 },
    And { rd: u64, rs1: u64, rs2: u64 },
}

/// The program counter after a branch: the branch target when taken, the
/// next sequential instruction otherwise.
pub open spec fn branch_next(pc: u64, imm: u64, taken: bool) -> u64 {
    if taken {
        spec_wrap_add(pc, imm)
    } else {
        spec_wrap_add(pc, 4)
    }
}

/// The JALR target: `rs1 + imm`, wrapping, with the lowest bit cleared.
pub open spec fn jalr_target(rs1: u64, imm: u64) -> u64 {
    let t = spec_wrap_add(rs1, imm);
    (t - t % 2) as u64
}

impl Rv32i {
    /// An effect that only writes register `rd` and advances to `pc + 4`.
    pub open spec fn alu_effect(rd: u64, value: u64, pc: u64, regs: Seq<u64>, mem: Seq<u8>) -> Effect {
        Effect {
            regs: regs.update(rd as int, value),
            mem,
            next: Ok(spec_wrap_add(pc, 4)),
        }
    }

    /// An effect that loads `size` bytes at `addr` into `rd` through `extend`.
    pub open spec fn load_effect(
        rd: u64,
        addr: u64,
        size: u64,
        extend: spec_fn(u64) -> u64,
        pc: u64,
        regs: Seq<u64>,
        mem: Seq<u8>,
    ) -> Effect {
        match Bus::spec_load(mem, addr, size) {
            Ok(v) => Effect {
                regs: regs.update(rd as int, extend(v)),
                mem,
                next: Ok(spec_wrap_add(pc, 4)),
            },
            Err(e) => Effect { regs, mem, next: Err(e) },
        }
    }

    /// An effect that stores `value` over `size` bytes at `addr`.
    pub open spec fn store_effect(
        addr: u64,
        size: u64,
        value: u64,
        pc: u64,
        regs: Seq<u64>,
        mem: Seq<u8>,
    ) -> Effect {
        match Bus::spec_store(mem, addr, size, value) {
            Ok(m2) => Effect { regs, mem: m2, next: Ok(spec_wrap_add(pc, 4)) },
            Err(e) => Effect { regs, mem, next: Err(e) },
        }
    }

    /// An effect that raises a branch decision.
    pub open spec fn branch_effect(pc: u64, imm: u64, taken: bool, regs: Seq<u64>, mem: Seq<u8>) -> Effect {
        Effect { regs, mem, next: Ok(branch_next(pc, imm, taken)) }
    }
}

impl Extension for Rv32i {
    open spec fn spec_id(ins: u32) -> Result<Rv32i, Exception> {
        let opcode = spec_opcode(ins);
        let funct3 = spec_funct3(ins);
        let funct7 = spec_funct7(ins);
        let rd = spec_rd(ins) as u64;
        let rs1 = spec_rs1(ins) as u64;
        let rs2 = spec_rs2(ins) as u64;
        let shamt = spec_rs2(ins);
        let illegal = Err::<Rv32i, Exception>(Exception::IllegalInstruction(ins as u64));
        if opcode == 0x37 {
            Ok(Rv32i::Lui { rd, imm: spec_u_imm(ins) })
        } else if opcode == 0x17 {
            Ok(Rv32i::Auipc { rd, imm: spec_u_imm(ins) })
        } else if opcode == 0x6f {
            Ok(Rv32i::Jal { rd, imm: spec_j_imm(ins) })
        } else if opcode == 0x67 {
            if funct3 == 0 {
                Ok(Rv32i::Jalr { rd, rs1, imm: spec_i_imm(ins) })
            } else {
                illegal
            }
        } else if opcode == 0x63 {
            let imm = spec_b_imm(ins);
            if funct3 == 0 {
                Ok(Rv32i::Beq { rs1, rs2, imm })
            } else if funct3 == 1 {
                Ok(Rv32i::Bne { rs1, rs2, imm })
            } else if funct3 == 4 {
                Ok(Rv32i::Blt { rs1, rs2, imm })
            } else if funct3 == 5 {
                Ok(Rv32i::Bge { rs1, rs2, imm })
            } else if funct3 == 6 {
                Ok(Rv32i::Bltu { rs1, rs2, imm })
            } else if funct3 == 7 {
                Ok(Rv32i::Bgeu { rs1, rs2, imm })
            } else {
                illegal
            }
        } else if opcode == 0x03 {
            let imm = spec_i_imm(ins);
            if funct3 == 0 {
                Ok(Rv32i::Lb { rd, rs1, imm })
            } else if funct3 == 1 {
                Ok(Rv32i::Lh { rd, rs1, imm })
            } else if funct3 == 2 {
                Ok(Rv32i::Lw { rd, rs1, imm })
            } else if funct3 == 4 {
                Ok(Rv32i::Lbu { rd, rs1, imm })
            } else if funct3 == 5 {
                Ok(Rv32i::Lhu { rd, rs1, imm })
            } else {
                illegal
            }
        } else if opcode == 0x23 {
            let imm = spec_s_imm(ins);
            if funct3 == 0 {
                Ok(Rv32i::Sb { rs1, rs2, imm })
            } else if funct3 == 1 {
                Ok(Rv32i::Sh { rs1, rs2, imm })
            } else if funct3 == 2 {
                Ok(Rv32i::Sw { rs1, rs2, imm })
            } else {
                illegal
            }
        } else if opcode == 0x13 {
            let imm = spec_i_imm(ins);
            if funct3 == 0 {
                Ok(Rv32i::Addi { rd, rs1, imm })
            } else if funct3 == 2 {
                Ok(Rv32i::Slti { rd, rs1, imm })
            } else if funct3 == 3 {
                Ok(Rv32i::Sltiu { rd, rs1, imm })
            } else if funct3 == 4 {
                Ok(Rv32i::Xori { rd, rs1, imm })
            } else if funct3 == 6 {
                Ok(Rv32i::Ori { rd, rs1, imm })
            } else if funct3 == 7 {
                Ok(Rv32i::Andi { rd, rs1, imm })
            } else if funct3 == 1 && funct7 == 0 {
                Ok(Rv32i::Slli { rd, rs1, shamt })
            } else if funct3 == 5 && funct7 == 0 {
                Ok(Rv32i::Srli { rd, rs1, shamt })
            } else if funct3 == 5 && funct7 == 0x20 {
                Ok(Rv32i::Srai { rd, rs1, shamt })
            } else {
                illegal
            }
        } else if opcode == 0x33 {
            if funct3 == 0 && funct7 == 0 {
                Ok(Rv32i::Add { rd, rs1, rs2 })
            } else if funct3 == 0 && funct7 == 0x20 {
                Ok(Rv32i::Sub { rd, rs1, rs2 })
            } else if funct3 == 1 && funct7 == 0 {
                Ok(Rv32i::Sll { rd, rs1, rs2 })
            } else if funct3 == 2 && funct7 == 0 {
                Ok(Rv32i::Slt { rd, rs1, rs2 })
            } else if funct3 == 3 && funct7 == 0 {
                Ok(Rv32i::Sltu { rd, rs1, rs2 })
            } else if funct3 == 4 && funct7 == 0 {
                Ok(Rv32i::Xor { rd, rs1, rs2 })
            } else if funct3 == 5 && funct7 == 0 {
                Ok(Rv32i::Srl { rd, rs1, rs2 })
            } else if funct3 == 5 && funct7 == 0x20 {
                Ok(Rv32i::Sra { rd, rs1, rs2 })
            } else if funct3 == 6 && funct7 == 0 {
                Ok(Rv32i::Or { rd, rs1, rs2 })
            } else if funct3 == 7 && funct7 == 0 {
                Ok(Rv32i::And { rd, rs1, rs2 })
            } else {
                illegal
            }
        } else {
            illegal
        }
    }

    open spec fn srcs_ok(self) -> bool {
        match self {
            Rv32i::Lui { .. } => true,
            Rv32i::Auipc { .. } => true,
            Rv32i::Jal { .. } => true,
            Rv32i::Jalr { rs1, .. } => rs1 < 32,
            Rv32i::Beq { rs1, rs2, .. } => rs1 < 32 && rs2 < 32,
            Rv32i::Bne { rs1, rs2, .. } => rs1 < 32 && rs2 < 32,
            Rv32i::Blt { rs1, rs2, .. } => rs1 < 32 && rs2 < 32,
            Rv32i::Bge { rs1, rs2, .. } => rs1 < 32 && rs2 < 32,
            Rv32i::Bltu { rs1, rs2, .. } => rs1 < 32 && rs2 < 32,
            Rv32i::Bgeu { rs1, rs2, .. } => rs1 < 32 && rs2 < 32,
            Rv32i::Lb { rs1, .. } => rs1 < 32,
            Rv32i::Lh { rs1, .. } => rs1 < 32,
            Rv32i::Lw { rs1, .. } => rs1 < 32,
            Rv32i::Lbu { rs1, .. } => rs1 < 32,
            Rv32i::Lhu { rs1, .. } => rs1 < 32,
            Rv32i::Sb { rs1, rs2, .. } => rs1 < 32 && rs2 < 32,
            Rv32i::Sh { rs1, rs2, .. } => rs1 < 32 && rs2 < 32,
            Rv32i::Sw { rs1, rs2, .. } => rs1 < 32 && rs2 < 32,
            Rv32i::Addi { rs1, .. } => rs1 < 32,
            Rv32i::Slti { rs1, .. } => rs1 < 32,
            Rv32i::Sltiu { rs1, .. } => rs1 < 32,
            Rv32i::Xori { rs1, .. } => rs1 < 32,
            Rv32i::Ori { rs1, .. } => rs1 < 32,
            Rv32i::Andi { rs1, .. } => rs1 < 32,
            Rv32i::Slli { rs1, .. } => rs1 < 32,
            Rv32i::Srli { rs1, .. } => rs1 < 32,
            Rv32i::Srai { rs1, .. } => rs1 < 32,
            Rv32i::Add { rs1, rs2, .. } => rs1 < 32 && rs2 < 32,
            Rv32i::Sub { rs1, rs2, .. } => rs1 < 32 && rs2 < 32,
            Rv32i::Sll { rs1, rs2, .. } => rs1 < 32 && rs2 < 32,
            Rv32i::Slt { rs1, rs2, .. } => rs1 < 32 && rs2 < 32,
            Rv32i::Sltu { rs1, rs2, .. } => rs1 < 32 && rs2 < 32,
            Rv32i::Xor { rs1, rs2, .. } => rs1 < 32 && rs2 < 32,
            Rv32i::Srl { rs1, rs2, .. } => rs1 < 32 && rs2 < 32,
            Rv32i::Sra { rs1, rs2, .. } => rs1 < 32 && rs2 < 32,
            Rv32i::Or { rs1, rs2, .. } => rs1 < 32 && rs2 < 32,
            Rv32i::And { rs1, rs2, .. } => rs1 < 32 && rs2 < 32,
        }
    }

    open spec fn dst_ok(self) -> bool {
        match self.spec_dst_reg() {
            Some(rd) => rd < 32,
            None => true,
        }
    }

    open spec fn spec_ex(self, regs: Seq<u64>) -> Rv32i {
        match self {
            Rv32i::Lui { rd, imm } => Rv32i::Lui { rd, imm },
            Rv32i::Auipc { rd, imm } => Rv32i::Auipc { rd, imm },
            Rv32i::Jal { rd, imm } => Rv32i::Jal { rd, imm },
            Rv32i::Jalr { rd, rs1, imm } => Rv32i::Jalr { rd, rs1: regs[rs1 as int], imm },
            Rv32i::Beq { rs1, rs2, imm } => Rv32i::Beq {
                rs1: regs[rs1 as int],
                rs2: regs[rs2 as int],
                imm,
            },
            Rv32i::Bne { rs1, rs2, imm } => Rv32i::Bne {
                rs1: regs[rs1 as int],
                rs2: regs[rs2 as int],
                imm,
            },
            Rv32i::Blt { rs1, rs2, imm } => Rv32i::Blt {
                rs1: regs[rs1 as int],
                rs2: regs[rs2 as int],
                imm,
            },
            Rv32i::Bge { rs1, rs2, imm } => Rv32i::Bge {
                rs1: regs[rs1 as int],
                rs2: regs[rs2 as int],
                imm,
            },
            Rv32i::Bltu { rs1, rs2, imm } => Rv32i::Bltu {
                rs1: regs[rs1 as int],
                rs2: regs[rs2 as int],
                imm,
            },
            Rv32i::Bgeu { rs1, rs2, imm } => Rv32i::Bgeu {
                rs1: regs[rs1 as int],
                rs2: regs[rs2 as int],
                imm,
            },
            Rv32i::Lb { rd, rs1, imm } => Rv32i::Lb { rd, rs1: regs[rs1 as int], imm },
            Rv32i::Lh { rd, rs1, imm } => Rv32i::Lh { rd, rs1: regs[rs1 as int], imm },
            Rv32i::Lw { rd, rs1, imm } => Rv32i::Lw { rd, rs1: regs[rs1 as int], imm },
            Rv32i::Lbu { rd, rs1, imm } => Rv32i::Lbu { rd, rs1: regs[rs1 as int], imm },
            Rv32i::Lhu { rd, rs1, imm } => Rv32i::Lhu { rd, rs1: regs[rs1 as int], imm },
            Rv32i::Sb { rs1, rs2, imm } => Rv32i::Sb {
                rs1: regs[rs1 as int],
                rs2: regs[rs2 as int],
                imm,
            },
            Rv32i::Sh { rs1, rs2, imm } => Rv32i::Sh {
                rs1: regs[rs1 as int],
                rs2: regs[rs2 as int],
                imm,
            },
            Rv32i::Sw { rs1, rs2, imm } => Rv32i::Sw {
                rs1: regs[rs1 as int],
                rs2: regs[rs2 as int],
                imm,
            },
            Rv32i::Addi { rd, rs1, imm } => Rv32i::Addi { rd, rs1: regs[rs1 as int], imm },
            Rv32i::Slti { rd, rs1, imm } => Rv32i::Slti { rd, rs1: regs[rs1 as int], imm },
            Rv32i::Sltiu { rd, rs1, imm } => Rv32i::Sltiu { rd, rs1: regs[rs1 as int], imm },
            Rv32i::Xori { rd, rs1, imm } => Rv32i::Xori { rd, rs1: regs[rs1 as int], imm },
            Rv32i::Ori { rd, rs1, imm } => Rv32i::Ori { rd, rs1: regs[rs1 as int], imm },
            Rv32i::Andi { rd, rs1, imm } => Rv32i::Andi { rd, rs1: regs[rs1 as int], imm },
            Rv32i::Slli { rd, rs1, shamt } => Rv32i::Slli {
                rd,
                rs1: regs[rs1 as int],
                shamt: shamt % 32,
            },
            Rv32i::Srli { rd, rs1, shamt } => Rv32i::Srli {
                rd,
                rs1: regs[rs1 as int],
                shamt: shamt % 32,
            },
            Rv32i::Srai { rd, rs1, shamt } => Rv32i::Srai {
                rd,
                rs1: regs[rs1 as int],
                shamt: shamt % 32,
            },
            Rv32i::Add { rd, rs1, rs2 } => Rv32i::Add {
                rd,
                rs1: regs[rs1 as int],
                rs2: regs[rs2 as int],
            },
            Rv32i::Sub { rd, rs1, rs2 } => Rv32i::Sub {
                rd,
                rs1: regs[rs1 as int],
                rs2: regs[rs2 as int],
            },
            Rv32i::Sll { rd, rs1, rs2 } => Rv32i::Sll {
                rd,
                rs1: regs[rs1 as int],
                rs2: regs[rs2 as int],
            },
            Rv32i::Slt { rd, rs1, rs2 } => Rv32i::Slt {
                rd,
                rs1: regs[rs1 as int],
                rs2: regs[rs2 as int],
            },
            Rv32i::Sltu { rd, rs1, rs2 } => Rv32i::Sltu {
                rd,
                rs1: regs[rs1 as int],
                rs2: regs[rs2 as int],
            },
            Rv32i::Xor { rd, rs1, rs2 } => Rv32i::Xor {
                rd,
                rs1: regs[rs1 as int],
                rs2: regs[rs2 as int],
            },
            Rv32i::Srl { rd, rs1, rs2 } => Rv32i::Srl {
                rd,
                rs1: regs[rs1 as int],
                rs2: regs[rs2 as int],
            },
            Rv32i::Sra { rd, rs1, rs2 } => Rv32i::Sra {
                rd,
                rs1: regs[rs1 as int],
                rs2: regs[rs2 as int],
            },
            Rv32i::Or { rd, rs1, rs2 } => Rv32i::Or {
                rd,
                rs1: regs[rs1 as int],
                rs2: regs[rs2 as int],
            },
            Rv32i::And { rd, rs1, rs2 } => Rv32i::And {
                rd,
                rs1: regs[rs1 as int],
                rs2: regs[rs2 as int],
            },
        }
    }

    open spec fn spec_wr(self, pc: u64, regs: Seq<u64>, mem: Seq<u8>) -> Effect {
        let pc4 = spec_wrap_add(pc, 4);
        match self {
            Rv32i::Lui { rd, imm } => Rv32i::alu_effect(rd, imm, pc, regs, mem),
            Rv32i::Auipc { rd, imm } => Rv32i::alu_effect(rd, spec_wrap_add(pc, imm), pc, regs, mem),
            Rv32i::Jal { rd, imm } => Effect {
                regs: regs.update(rd as int, pc4),
                mem,
                next: Ok(spec_wrap_add(pc, imm)),
            },
            Rv32i::Jalr { rd, rs1, imm } => Effect {
                regs: regs.update(rd as int, pc4),
                mem,
                next: Ok(jalr_target(rs1, imm)),
            },
            Rv32i::Beq { rs1, rs2, imm } => Rv32i::branch_effect(pc, imm, rs1 == rs2, regs, mem),
            Rv32i::Bne { rs1, rs2, imm } => Rv32i::branch_effect(pc, imm, rs1 != rs2, regs, mem),
            Rv32i::Blt { rs1, rs2, imm } => Rv32i::branch_effect(
                pc,
                imm,
                as_signed(rs1) < as_signed(rs2),
                regs,
                mem,
            ),
            Rv32i::Bge { rs1, rs2, imm } => Rv32i::branch_effect(
                pc,
                imm,
                as_signed(rs1) >= as_signed(rs2),
                regs,
                mem,
            ),
            Rv32i::Bltu { rs1, rs2, imm } => Rv32i::branch_effect(pc, imm, rs1 < rs2, regs, mem),
            Rv32i::Bgeu { rs1, rs2, imm } => Rv32i::branch_effect(pc, imm, rs1 >= rs2, regs, mem),
            Rv32i::Lb { rd, rs1, imm } => Rv32i::load_effect(
                rd,
                spec_wrap_add(rs1, imm),
                1,
                |v: u64| spec_sext8(v),
                pc,
                regs,
                mem,
            ),
            Rv32i::Lh { rd, rs1, imm } => Rv32i::load_effect(
                rd,
                spec_wrap_add(rs1, imm),
                2,
                |v: u64| spec_sext16(v),
                pc,
                regs,
                mem,
            ),
            Rv32i::Lw { rd, rs1, imm } => Rv32i::load_effect(
                rd,
                spec_wrap_add(rs1, imm),
                4,
                |v: u64| spec_sext32(v),
                pc,
                regs,
                mem,
            ),
            Rv32i::Lbu { rd, rs1, imm } => Rv32i::load_effect(
                rd,
                spec_wrap_add(rs1, imm),
                1,
                |v: u64| v,
                pc,
                regs,
                mem,
            ),
            Rv32i::Lhu { rd, rs1, imm } => Rv32i::load_effect(
                rd,
                spec_wrap_add(rs1, imm),
                2,
                |v: u64| v,
                pc,
                regs,
                mem,
            ),
            Rv32i::Sb { rs1, rs2, imm } => Rv32i::store_effect(
                spec_wrap_add(rs1, imm),
                1,
                rs2 % 0x100,
                pc,
                regs,
                mem,
            ),
            Rv32i::Sh { rs1, rs2, imm } => Rv32i::store_effect(
                spec_wrap_add(rs1, imm),
                2,
                rs2 % 0x1_0000,
                pc,
                regs,
                mem,
            ),
            Rv32i::Sw { rs1, rs2, imm } => Rv32i::store_effect(
                spec_wrap_add(rs1, imm),
                4,
                rs2 % 0x1_0000_0000,
                pc,
                regs,
                mem,
            ),
            Rv32i::Addi { rd, rs1, imm } => Rv32i::alu_effect(
                rd,
                spec_wrap_add(rs1, imm),
                pc,
                regs,
                mem,
            ),
            Rv32i::Slti { rd, rs1, imm } => Rv32i::alu_effect(
                rd,
                if as_signed(rs1) < as_signed(imm) {
                    1
                } else {
                    0
                },
                pc,
                regs,
                mem,
            ),
            Rv32i::Sltiu { rd, rs1, imm } => Rv32i::alu_effect(
                rd,
                if rs1 < imm {
                    1
                } else {
                    0
                },
                pc,
                regs,
                mem,
            ),
            Rv32i::Xori { rd, rs1, imm } => Rv32i::alu_effect(rd, rs1 ^ imm, pc, regs, mem),
            Rv32i::Ori { rd, rs1, imm } => Rv32i::alu_effect(rd, rs1 | imm, pc, regs, mem),
            Rv32i::Andi { rd, rs1, imm } => Rv32i::alu_effect(rd, rs1 & imm, pc, regs, mem),
            Rv32i::Slli { rd, rs1, shamt } => Rv32i::alu_effect(
                rd,
                rs1 << ((shamt as u64) % 64),
                pc,
                regs,
                mem,
            ),
            Rv32i::Srli { rd, rs1, shamt } => Rv32i::alu_effect(
                rd,
                rs1 >> ((shamt as u64) % 64),
                pc,
                regs,
                mem,
            ),
            Rv32i::Srai { rd, rs1, shamt } => Rv32i::alu_effect(
                rd,
                spec_sra64(rs1, (shamt as u64) % 64),
                pc,
                regs,
                mem,
            ),
            Rv32i::Add { rd, rs1, rs2 } => Rv32i::alu_effect(
                rd,
                spec_wrap_add(rs1, rs2),
                pc,
                regs,
                mem,
            ),
            Rv32i::Sub { rd, rs1, rs2 } => Rv32i::alu_effect(
                rd,
                spec_wrap_sub(rs1, rs2),
                pc,
                regs,
                mem,
            ),
            Rv32i::Sll { rd, rs1, rs2 } => Rv32i::alu_effect(rd, rs1 << (rs2 % 32), pc, regs, mem),
            Rv32i::Slt { rd, rs1, rs2 } => Rv32i::alu_effect(
                rd,
                if as_signed(rs1) < as_signed(rs2) {
                    1
                } else {
                    0
                },
                pc,
                regs,
                mem,
            ),
            Rv32i::Sltu { rd, rs1, rs2 } => Rv32i::alu_effect(
                rd,
                if rs1 < rs2 {
                    1
                } else {
                    0
                },
                pc,
                regs,
                mem,
            ),
            Rv32i::Xor { rd, rs1, rs2 } => Rv32i::alu_effect(rd, rs1 ^ rs2, pc, regs, mem),
            Rv32i::Srl { rd, rs1, rs2 } => Rv32i::alu_effect(rd, rs1 >> (rs2 % 32), pc, regs, mem),
            Rv32i::Sra { rd, rs1, rs2 } => Rv32i::alu_effect(
                rd,
                spec_sra64(rs1, rs2 % 32),
                pc,
                regs,
                mem,
            ),
            Rv32i::Or { rd, rs1, rs2 } => Rv32i::alu_effect(rd, rs1 | rs2, pc, regs, mem),
            Rv32i::And { rd, rs1, rs2 } => Rv32i::alu_effect(rd, rs1 & rs2, pc, regs, mem),
        }
    }

    open spec fn spec_src_regs(self) -> Seq<u64> {
        match self {
            Rv32i::Lui { .. } => seq![],
            Rv32i::Auipc { .. } => seq![],
            Rv32i::Jal { .. } => seq![],
            Rv32i::Jalr { rs1, .. } => seq![rs1],
            Rv32i::Beq { rs1, rs2, .. } => seq![rs1, rs2],
            Rv32i::Bne { rs1, rs2, .. } => seq![rs1, rs2],
            Rv32i::Blt { rs1, rs2, .. } => seq![rs1, rs2],
            Rv32i::Bge { rs1, rs2, .. } => seq![rs1, rs2],
            Rv32i::Bltu { rs1, rs2, .. } => seq![rs1, rs2],
            Rv32i::Bgeu { rs1, rs2, .. } => seq![rs1, rs2],
            Rv32i::Lb { rs1, .. } => seq![rs1],
            Rv32i::Lh { rs1, .. } => seq![rs1],
            Rv32i::Lw { rs1, .. } => seq![rs1],
            Rv32i::Lbu { rs1, .. } => seq![rs1],
            Rv32i::Lhu { rs1, .. } => seq![rs1],
            Rv32i::Sb { rs1, rs2, .. } => seq![rs1, rs2],
            Rv32i::Sh { rs1, rs2, .. } => seq![rs1, rs2],
            Rv32i::Sw { rs1, rs2, .. } => seq![rs1, rs2],
            Rv32i::Addi { rs1, .. } => seq![rs1],
            Rv32i::Slti { rs1, .. } => seq![rs1],
            Rv32i::Sltiu { rs1, .. } => seq![rs1],
            Rv32i::Xori { rs1, .. } => seq![rs1],
            Rv32i::Ori { rs1, .. } => seq![rs1],
            Rv32i::Andi { rs1, .. } => seq![rs1],
            Rv32i::Slli { rs1, .. } => seq![rs1],
            Rv32i::Srli { rs1, .. } => seq![rs1],
            Rv32i::Srai { rs1, .. } => seq![rs1],
            Rv32i::Add { rs1, rs2, .. } => seq![rs1, rs2],
            Rv32i::Sub { rs1, rs2, .. } => seq![rs1, rs2],
            Rv32i::Sll { rs1, rs2, .. } => seq![rs1, rs2],
            Rv32i::Slt { rs1, rs2, .. } => seq![rs1, rs2],
            Rv32i::Sltu { rs1, rs2, .. } => seq![rs1, rs2],
            Rv32i::Xor { rs1, rs2, .. } => seq![rs1, rs2],
            Rv32i::Srl { rs1, rs2, .. } => seq![rs1, rs2],
            Rv32i::Sra { rs1, rs2, .. } => seq![rs1, rs2],
            Rv32i::Or { rs1, rs2, .. } => seq![rs1, rs2],
            Rv32i::And { rs1, rs2, .. } => seq![rs1, rs2],
        }
    }

    open spec fn spec_dst_reg(self) -> Option<u64> {
        match self {
            Rv32i::Lui { rd, .. } => Some(rd),
            Rv32i::Auipc { rd, .. } => Some(rd),
            Rv32i::Jal { rd, .. } => Some(rd),
            Rv32i::Jalr { rd, .. } => Some(rd),
            Rv32i::Beq { .. } => None,
            Rv32i::Bne { .. } => None,
            Rv32i::Blt { .. } => None,
            Rv32i::Bge { .. } => None,
            Rv32i::Bltu { .. } => None,
            Rv32i::Bgeu { .. } => None,
            Rv32i::Lb { rd, .. } => Some(rd),
            Rv32i::Lh { rd, .. } => Some(rd),
            Rv32i::Lw { rd, .. } => Some(rd),
            Rv32i::Lbu { rd, .. } => Some(rd),
            Rv32i::Lhu { rd, .. } => Some(rd),
            Rv32i::Sb { .. } => None,
            Rv32i::Sh { .. } => None,
            Rv32i::Sw { .. } => None,
            Rv32i::Addi { rd, .. } => Some(rd),
            Rv32i::Slti { rd, .. } => Some(rd),
            Rv32i::Sltiu { rd, .. } => Some(rd),
            Rv32i::Xori { rd, .. } => Some(rd),
            Rv32i::Ori { rd, .. } => Some(rd),
            Rv32i::Andi { rd, .. } => Some(rd),
            Rv32i::Slli { rd, .. } => Some(rd),
            Rv32i::Srli { rd, .. } => Some(rd),
            Rv32i::Srai { rd, .. } => Some(rd),
            Rv32i::Add { rd, .. } => Some(rd),
            Rv32i::Sub { rd, .. } => Some(rd),
            Rv32i::Sll { rd, .. } => Some(rd),
            Rv32i::Slt { rd, .. } => Some(rd),
            Rv32i::Sltu { rd, .. } => Some(rd),
            Rv32i::Xor { rd, .. } => Some(rd),
            Rv32i::Srl { rd, .. } => Some(rd),
            Rv32i::Sra { rd, .. } => Some(rd),
            Rv32i::Or { rd, .. } => Some(rd),
            Rv32i::And { rd, .. } => Some(rd),
        }
    }

    open spec fn spec_src_mem_addr(self) -> Option<u64> {
        match self {
            Rv32i::Lb { rs1, imm, .. } => Some(spec_wrap_add(rs1, imm)),
            Rv32i::Lh { rs1, imm, .. } => Some(spec_wrap_add(rs1, imm)),
            Rv32i::Lw { rs1, imm, .. } => Some(spec_wrap_add(rs1, imm)),
            Rv32i::Lbu { rs1, imm, .. } => Some(spec_wrap_add(rs1, imm)),
            Rv32i::Lhu { rs1, imm, .. } => Some(spec_wrap_add(rs1, imm)),
            _ => None,
        }
    }

    open spec fn spec_dst_mem_addr(self) -> Option<u64> {
        match self {
            Rv32i::Sb { rs1, imm, .. } => Some(spec_wrap_add(rs1, imm)),
            Rv32i::Sh { rs1, imm, .. } => Some(spec_wrap_add(rs1, imm)),
            Rv32i::Sw { rs1, imm, .. } => Some(spec_wrap_add(rs1, imm)),
            _ => None,
        }
    }

    open spec fn spec_is_ld(self) -> bool {
        match self {
            Rv32i::Lb { .. } => true,
            Rv32i::Lh { .. } => true,
            Rv32i::Lw { .. } => true,
            Rv32i::Lbu { .. } => true,
            Rv32i::Lhu { .. } => true,
            _ => false,
        }
    }

    open spec fn spec_is_st(self) -> bool {
        match self {
            Rv32i::Sb { .. } => true,
            Rv32i::Sh { .. } => true,
            Rv32i::Sw { .. } => true,
            _ => false,
        }
    }

    open spec fn spec_is_br(self) -> bool {
        match self {
            Rv32i::Beq { .. } => true,
            Rv32i::Bne { .. } => true,
            Rv32i::Blt { .. } => true,
            Rv32i::Bge { .. } => true,
            Rv32i::Bltu { .. } => true,
            Rv32i::Bgeu { .. } => true,
            _ => false,
        }
    }

    open spec fn spec_is_jmp(self) -> bool {
        match self {
            Rv32i::Jal { .. } => true,
            Rv32i::Jalr { .. } => true,
            _ => false,
        }
    }

    fn id(ins: u32) -> (r: Result<Rv32i, Exception>) {
        let opcode = crate::isa::opcode(ins);
        let funct3 = crate::isa::funct3(ins);
        let funct7 = crate::isa::funct7(ins);
        let rd = crate::isa::rd(ins) as u64;
        let rs1 = crate::isa::rs1(ins) as u64;
        let rs2 = crate::isa::rs2(ins) as u64;
        let shamt = crate::isa::rs2(ins) as u32;
        if opcode == 0x37 {
            Ok(Rv32i::Lui { rd, imm: crate::isa::u_imm(ins) })
        } else if opcode == 0x17 {
            Ok(Rv32i::Auipc { rd, imm: crate::isa::u_imm(ins) })
        } else if opcode == 0x6f {
            Ok(Rv32i::Jal { rd, imm: crate::isa::j_imm(ins) })
        } else if opcode == 0x67 {
            if funct3 == 0 {
                Ok(Rv32i::Jalr { rd, rs1, imm: crate::isa::i_imm(ins) })
            } else {
                Err(Exception::IllegalInstruction(ins as u64))
            }
        } else if opcode == 0x63 {
            let imm = crate::isa::b_imm(ins);
            if funct3 == 0 {
                Ok(Rv32i::Beq { rs1, rs2, imm })
            } else if funct3 == 1 {
                Ok(Rv32i::Bne { rs1, rs2, imm })
            } else if funct3 == 4 {
                Ok(Rv32i::Blt { rs1, rs2, imm })
            } else if funct3 == 5 {
                Ok(Rv32i::Bge { rs1, rs2, imm })
            } else if funct3 == 6 {
                Ok(Rv32i::Bltu { rs1, rs2, imm })
            } else if funct3 == 7 {
                Ok(Rv32i::Bgeu { rs1, rs2, imm })
            } else {
                Err(Exception::IllegalInstruction(ins as u64))
            }
        } else if opcode == 0x03 {
            let imm = crate::isa::i_imm(ins);
            if funct3 == 0 {
                Ok(Rv32i::Lb { rd, rs1, imm })
            } else if funct3 == 1 {
                Ok(Rv32i::Lh { rd, rs1, imm })
            } else if funct3 == 2 {
                Ok(Rv32i::Lw { rd, rs1, imm })
            } else if funct3 == 4 {
                Ok(Rv32i::Lbu { rd, rs1, imm })
            } else if funct3 == 5 {
                Ok(Rv32i::Lhu { rd, rs1, imm })
            } else {
                Err(Exception::IllegalInstruction(ins as u64))
            }
        } else if opcode == 0x23 {
            let imm = crate::isa::s_imm(ins);
            if funct3 == 0 {
                Ok(Rv32i::Sb { rs1, rs2, imm })
            } else if funct3 == 1 {
                Ok(Rv32i::Sh { rs1, rs2, imm })
            } else if funct3 == 2 {
                Ok(Rv32i::Sw { rs1, rs2, imm })
            } else {
                Err(Exception::IllegalInstruction(ins as u64))
            }
        } else if opcode == 0x13 {
            let imm = crate::isa::i_imm(ins);
            if funct3 == 0 {
                Ok(Rv32i::Addi { rd, rs1, imm })
            } else if funct3 == 2 {
                Ok(Rv32i::Slti { rd, rs1, imm })
            } else if funct3 == 3 {
                Ok(Rv32i::Sltiu { rd, rs1, imm })
            } else if funct3 == 4 {
                Ok(Rv32i::Xori { rd, rs1, imm })
            } else if funct3 == 6 {
                Ok(Rv32i::Ori { rd, rs1, imm })
            } else if funct3 == 7 {
                Ok(Rv32i::Andi { rd, rs1, imm })
            } else if funct3 == 1 && funct7 == 0 {
                Ok(Rv32i::Slli { rd, rs1, shamt })
            } else if funct3 == 5 && funct7 == 0 {
                Ok(Rv32i::Srli { rd, rs1, shamt })
            } else if funct3 == 5 && funct7 == 0x20 {
                Ok(Rv32i::Srai { rd, rs1, shamt })
            } else {
                Err(Exception::IllegalInstruction(ins as u64))
            }
        } else if opcode == 0x33 {
            if funct3 == 0 && funct7 == 0 {
                Ok(Rv32i::Add { rd, rs1, rs2 })
            } else if funct3 == 0 && funct7 == 0x20 {
                Ok(Rv32i::Sub { rd, rs1, rs2 })
            } else if funct3 == 1 && funct7 == 0 {
                Ok(Rv32i::Sll { rd, rs1, rs2 })
            } else if funct3 == 2 && funct7 == 0 {
                Ok(Rv32i::Slt { rd, rs1, rs2 })
            } else if funct3 == 3 && funct7 == 0 {
                Ok(Rv32i::Sltu { rd, rs1, rs2 })
            } else if funct3 == 4 && funct7 == 0 {
                Ok(Rv32i::Xor { rd, rs1, rs2 })
            } else if funct3 == 5 && funct7 == 0 {
                Ok(Rv32i::Srl { rd, rs1, rs2 })
            } else if funct3 == 5 && funct7 == 0x20 {
                Ok(Rv32i::Sra { rd, rs1, rs2 })
            } else if funct3 == 6 && funct7 == 0 {
                Ok(Rv32i::Or { rd, rs1, rs2 })
            } else if funct3 == 7 && funct7 == 0 {
                Ok(Rv32i::And { rd, rs1, rs2 })
            } else {
                Err(Exception::IllegalInstruction(ins as u64))
            }
        } else {
            Err(Exception::IllegalInstruction(ins as u64))
        }
    }

    fn ex(self, regs: &Vec<u64>) -> (r: Rv32i) {
        match self {
            Rv32i::Lui { rd, imm } => Rv32i::Lui { rd, imm },
            Rv32i::Auipc { rd, imm } => Rv32i::Auipc { rd, imm },
            Rv32i::Jal { rd, imm } => Rv32i::Jal { rd, imm },
            Rv32i::Jalr { rd, rs1, imm } => Rv32i::Jalr { rd, rs1: regs[rs1 as usize], imm },
            Rv32i::Beq { rs1, rs2, imm } => Rv32i::Beq {
                rs1: regs[rs1 as usize],
                rs2: regs[rs2 as usize],
                imm,
            },
            Rv32i::Bne { rs1, rs2, imm } => Rv32i::Bne {
                rs1: regs[rs1 as usize],
                rs2: regs[rs2 as usize],
                imm,
            },
            Rv32i::Blt { rs1, rs2, imm } => Rv32i::Blt {
                rs1: regs[rs1 as usize],
                rs2: regs[rs2 as usize],
                imm,
            },
            Rv32i::Bge { rs1, rs2, imm } => Rv32i::Bge {
                rs1: regs[rs1 as usize],
                rs2: regs[rs2 as usize],
                imm,
            },
            Rv32i::Bltu { rs1, rs2, imm } => Rv32i::Bltu {
                rs1: regs[rs1 as usize],
                rs2: regs[rs2 as usize],
                imm,
            },
            Rv32i::Bgeu { rs1, rs2, imm } => Rv32i::Bgeu {
                rs1: regs[rs1 as usize],
                rs2: regs[rs2 as usize],
                imm,
            },
            Rv32i::Lb { rd, rs1, imm } => Rv32i::Lb { rd, rs1: regs[rs1 as usize], imm },
            Rv32i::Lh { rd, rs1, imm } => Rv32i::Lh { rd, rs1: regs[rs1 as usize], imm },
            Rv32i::Lw { rd, rs1, imm } => Rv32i::Lw { rd, rs1: regs[rs1 as usize], imm },
            Rv32i::Lbu { rd, rs1, imm } => Rv32i::Lbu { rd, rs1: regs[rs1 as usize], imm },
            Rv32i::Lhu { rd, rs1, imm } => Rv32i::Lhu { rd, rs1: regs[rs1 as usize], imm },
            Rv32i::Sb { rs1, rs2, imm } => Rv32i::Sb {
                rs1: regs[rs1 as usize],
                rs2: regs[rs2 as usize],
                imm,
            },
            Rv32i::Sh { rs1, rs2, imm } => Rv32i::Sh {
                rs1: regs[rs1 as usize],
                rs2: regs[rs2 as usize],
                imm,
            },
            Rv32i::Sw { rs1, rs2, imm } => Rv32i::Sw {
                rs1: regs[rs1 as usize],
                rs2: regs[rs2 as usize],
                imm,
            },
            Rv32i::Addi { rd, rs1, imm } => Rv32i::Addi { rd, rs1: regs[rs1 as usize], imm },
            Rv32i::Slti { rd, rs1, imm } => Rv32i::Slti { rd, rs1: regs[rs1 as usize], imm },
            Rv32i::Sltiu { rd, rs1, imm } => Rv32i::Sltiu { rd, rs1: regs[rs1 as usize], imm },
            Rv32i::Xori { rd, rs1, imm } => Rv32i::Xori { rd, rs1: regs[rs1 as usize], imm },
            Rv32i::Ori { rd, rs1, imm } => Rv32i::Ori { rd, rs1: regs[rs1 as usize], imm },
            Rv32i::Andi { rd, rs1, imm } => Rv32i::Andi { rd, rs1: regs[rs1 as usize], imm },
            Rv32i::Slli { rd, rs1, shamt } => Rv32i::Slli {
                rd,
                rs1: regs[rs1 as usize],
                shamt: shamt % 32,
            },
            Rv32i::Srli { rd, rs1, shamt } => Rv32i::Srli {
                rd,
                rs1: regs[rs1 as usize],
                shamt: shamt % 32,
            },
            Rv32i::Srai { rd, rs1, shamt } => Rv32i::Srai {
                rd,
                rs1: regs[rs1 as usize],
                shamt: shamt % 32,
            },
            Rv32i::Add { rd, rs1, rs2 } => Rv32i::Add {
                rd,
                rs1: regs[rs1 as usize],
                rs2: regs[rs2 as usize],
            },
            Rv32i::Sub { rd, rs1, rs2 } => Rv32i::Sub {
                rd,
                rs1: regs[rs1 as usize],
                rs2: regs[rs2 as usize],
            },
            Rv32i::Sll { rd, rs1, rs2 } => Rv32i::Sll {
                rd,
                rs1: regs[rs1 as usize],
                rs2: regs[rs2 as usize],
            },
            Rv32i::Slt { rd, rs1, rs2 } => Rv32i::Slt {
                rd,
                rs1: regs[rs1 as usize],
                rs2: regs[rs2 as usize],
            },
            Rv32i::Sltu { rd, rs1, rs2 } => Rv32i::Sltu {
                rd,
                rs1: regs[rs1 as usize],
                rs2: regs[rs2 as usize],
            },
            Rv32i::Xor { rd, rs1, rs2 } => Rv32i::Xor {
                rd,
                rs1: regs[rs1 as usize],
                rs2: regs[rs2 as usize],
            },
            Rv32i::Srl { rd, rs1, rs2 } => Rv32i::Srl {
                rd,
                rs1: regs[rs1 as usize],
                rs2: regs[rs2 as usize],
            },
            Rv32i::Sra { rd, rs1, rs2 } => Rv32i::Sra {
                rd,
                rs1: regs[rs1 as usize],
                rs2: regs[rs2 as usize],
            },
            Rv32i::Or { rd, rs1, rs2 } => Rv32i::Or {
                rd,
                rs1: regs[rs1 as usize],
                rs2: regs[rs2 as usize],
            },
            Rv32i::And { rd, rs1, rs2 } => Rv32i::And {
                rd,
                rs1: regs[rs1 as usize],
                rs2: regs[rs2 as usize],
            },
        }
    }

    fn wr(self, pc: u64, regs: &mut Vec<u64>, bus: &mut Bus) -> (r: Result<u64, Exception>) {
        match self {
            Rv32i::Lui { rd, imm } => {
                regs.set(rd as usize, imm);
                Ok(ops::wrap_add(pc, 4))
            },
            Rv32i::Auipc { rd, imm } => {
                regs.set(rd as usize, ops::wrap_add(pc, imm));
                Ok(ops::wrap_add(pc, 4))
            },
            Rv32i::Jal { rd, imm } => {
                regs.set(rd as usize, ops::wrap_add(pc, 4));
                Ok(ops::wrap_add(pc, imm))
            },
            Rv32i::Jalr { rd, rs1, imm } => {
                regs.set(rd as usize, ops::wrap_add(pc, 4));
                let t = ops::wrap_add(rs1, imm);
                Ok(t - t % 2)
            },
            Rv32i::Beq { rs1, rs2, imm } => {
                if rs1 == rs2 {
                    Ok(ops::wrap_add(pc, imm))
                } else {
                    Ok(ops::wrap_add(pc, 4))
                }
            },
            Rv32i::Bne { rs1, rs2, imm } => {
                if rs1 != rs2 {
                    Ok(ops::wrap_add(pc, imm))
                } else {
                    Ok(ops::wrap_add(pc, 4))
                }
            },
            Rv32i::Blt { rs1, rs2, imm } => {
                if ops::signed_lt(rs1, rs2) {
                    Ok(ops::wrap_add(pc, imm))
                } else {
                    Ok(ops::wrap_add(pc, 4))
                }
            },
            Rv32i::Bge { rs1, rs2, imm } => {
                if !ops::signed_lt(rs1, rs2) {
                    Ok(ops::wrap_add(pc, imm))
                } else {
                    Ok(ops::wrap_add(pc, 4))
                }
            },
            Rv32i::Bltu { rs1, rs2, imm } => {
                if rs1 < rs2 {
                    Ok(ops::wrap_add(pc, imm))
                } else {
                    Ok(ops::wrap_add(pc, 4))
                }
            },
            Rv32i::Bgeu { rs1, rs2, imm } => {
                if rs1 >= rs2 {
                    Ok(ops::wrap_add(pc, imm))
                } else {
                    Ok(ops::wrap_add(pc, 4))
                }
            },
            Rv32i::Lb { rd, rs1, imm } => {
                let addr = ops::wrap_add(rs1, imm);
                match bus.load(addr, Bits { size: 1 }) {
                    Ok(v) => {
                        regs.set(rd as usize, ops::sext8(v));
                        Ok(ops::wrap_add(pc, 4))
                    },
                    Err(e) => Err(e),
                }
            },
            Rv32i::Lh { rd, rs1, imm } => {
                let addr = ops::wrap_add(rs1, imm);
                match bus.load(addr, Bits { size: 2 }) {
                    Ok(v) => {
                        regs.set(rd as usize, ops::sext16(v));
                        Ok(ops::wrap_add(pc, 4))
                    },
                    Err(e) => Err(e),
                }
            },
            Rv32i::Lw { rd, rs1, imm } => {
                let addr = ops::wrap_add(rs1, imm);
                match bus.load(addr, Bits { size: 4 }) {
                    Ok(v) => {
                        regs.set(rd as usize, ops::sext32(v));
                        Ok(ops::wrap_add(pc, 4))
                    },
                    Err(e) => Err(e),
                }
            },
            Rv32i::Lbu { rd, rs1, imm } => {
                let addr = ops::wrap_add(rs1, imm);
                match bus.load(addr, Bits { size: 1 }) {
                    Ok(v) => {
                        regs.set(rd as usize, v);
                        Ok(ops::wrap_add(pc, 4))
                    },
                    Err(e) => Err(e),
                }
            },
            Rv32i::Lhu { rd, rs1, imm } => {
                let addr = ops::wrap_add(rs1, imm);
                match bus.load(addr, Bits { size: 2 }) {
                    Ok(v) => {
                        regs.set(rd as usize, v);
                        Ok(ops::wrap_add(pc, 4))
                    },
                    Err(e) => Err(e),
                }
            },
            Rv32i::Sb { rs1, rs2, imm } => {
                let addr = ops::wrap_add(rs1, imm);
                match bus.store(addr, Bits { size: 1 }, rs2 % 0x100) {
                    Ok(_) => Ok(ops::wrap_add(pc, 4)),
                    Err(e) => Err(e),
                }
            },
            Rv32i::Sh { rs1, rs2, imm } => {
                let addr = ops::wrap_add(rs1, imm);
                match bus.store(addr, Bits { size: 2 }, rs2 % 0x1_0000) {
                    Ok(_) => Ok(ops::wrap_add(pc, 4)),
                    Err(e) => Err(e),
                }
            },
            Rv32i::Sw { rs1, rs2, imm } => {
                let addr = ops::wrap_add(rs1, imm);
                match bus.store(addr, Bits { size: 4 }, rs2 % 0x1_0000_0000) {
                    Ok(_) => Ok(ops::wrap_add(pc, 4)),
                    Err(e) => Err(e),
                }
            },
            Rv32i::Addi { rd, rs1, imm } => {
                regs.set(rd as usize, ops::wrap_add(rs1, imm));
                Ok(ops::wrap_add(pc, 4))
            },
            Rv32i::Slti { rd, rs1, imm } => {
                regs.set(rd as usize, if ops::signed_lt(rs1, imm) { 1 } else { 0 });
                Ok(ops::wrap_add(pc, 4))
            },
            Rv32i::Sltiu { rd, rs1, imm } => {
                regs.set(rd as usize, if rs1 < imm { 1 } else { 0 });
                Ok(ops::wrap_add(pc, 4))
            },
            Rv32i::Xori { rd, rs1, imm } => {
                regs.set(rd as usize, rs1 ^ imm);
                Ok(ops::wrap_add(pc, 4))
            },
            Rv32i::Ori { rd, rs1, imm } => {
                regs.set(rd as usize, rs1 | imm);
                Ok(ops::wrap_add(pc, 4))
            },
            Rv32i::Andi { rd, rs1, imm } => {
                regs.set(rd as usize, rs1 & imm);
                Ok(ops::wrap_add(pc, 4))
            },
            Rv32i::Slli { rd, rs1, shamt } => {
                regs.set(rd as usize, rs1 << ((shamt as u64) % 64));
                Ok(ops::wrap_add(pc, 4))
            },
            Rv32i::Srli { rd, rs1, shamt } => {
                regs.set(rd as usize, rs1 >> ((shamt as u64) % 64));
                Ok(ops::wrap_add(pc, 4))
            },
            Rv32i::Srai { rd, rs1, shamt } => {
                regs.set(rd as usize, ops::sra64(rs1, (shamt as u64) % 64));
                Ok(ops::wrap_add(pc, 4))
            },
            Rv32i::Add { rd, rs1, rs2 } => {
                regs.set(rd as usize, ops::wrap_add(rs1, rs2));
                Ok(ops::wrap_add(pc, 4))
            },
            Rv32i::Sub { rd, rs1, rs2 } => {
                regs.set(rd as usize, ops::wrap_sub(rs1, rs2));
                Ok(ops::wrap_add(pc, 4))
            },
            Rv32i::Sll { rd, rs1, rs2 } => {
                regs.set(rd as usize, rs1 << (rs2 % 32));
                Ok(ops::wrap_add(pc, 4))
            },
            Rv32i::Slt { rd, rs1, rs2 } => {
                regs.set(rd as usize, if ops::signed_lt(rs1, rs2) { 1 } else { 0 });
                Ok(ops::wrap_add(pc, 4))
            },
            Rv32i::Sltu { rd, rs1, rs2 } => {
                regs.set(rd as usize, if rs1 < rs2 { 1 } else { 0 });
                Ok(ops::wrap_add(pc, 4))
            },
            Rv32i::Xor { rd, rs1, rs2 } => {
                regs.set(rd as usize, rs1 ^ rs2);
                Ok(ops::wrap_add(pc, 4))
            },
            Rv32i::Srl { rd, rs1, rs2 } => {
                regs.set(rd as usize, rs1 >> (rs2 % 32));
                Ok(ops::wrap_add(pc, 4))
            },
            Rv32i::Sra { rd, rs1, rs2 } => {
                regs.set(rd as usize, ops::sra64(rs1, rs2 % 32));
                Ok(ops::wrap_add(pc, 4))
            },
            Rv32i::Or { rd, rs1, rs2 } => {
                regs.set(rd as usize, rs1 | rs2);
                Ok(ops::wrap_add(pc, 4))
            },
            Rv32i::And { rd, rs1, rs2 } => {
                regs.set(rd as usize, rs1 & rs2);
                Ok(ops::wrap_add(pc, 4))
            },
        }
    }

    fn src_regs(&self) -> (r: Vec<u64>) {
        let mut v: Vec<u64> = Vec::new();
        match self {
            Rv32i::Lui { .. } => {},
            Rv32i::Auipc { .. } => {},
            Rv32i::Jal { .. } => {},
            Rv32i::Jalr { rs1, .. } => {
                v.push(*rs1);
            },
            Rv32i::Beq { rs1, rs2, .. } => {
                v.push(*rs1);
                v.push(*rs2);
            },
            Rv32i::Bne { rs1, rs2, .. } => {
                v.push(*rs1);
                v.push(*rs2);
            },
            Rv32i::Blt { rs1, rs2, .. } => {
                v.push(*rs1);
                v.push(*rs2);
            },
            Rv32i::Bge { rs1, rs2, .. } => {
                v.push(*rs1);
                v.push(*rs2);
            },
            Rv32i::Bltu { rs1, rs2, .. } => {
                v.push(*rs1);
                v.push(*rs2);
            },
            Rv32i::Bgeu { rs1, rs2, .. } => {
                v.push(*rs1);
                v.push(*rs2);
            },
            Rv32i::Lb { rs1, .. } => {
                v.push(*rs1);
            },
            Rv32i::Lh { rs1, .. } => {
                v.push(*rs1);
            },
            Rv32i::Lw { rs1, .. } => {
                v.push(*rs1);
            },
            Rv32i::Lbu { rs1, .. } => {
                v.push(*rs1);
            },
            Rv32i::Lhu { rs1, .. } => {
                v.push(*rs1);
            },
            Rv32i::Sb { rs1, rs2, .. } => {
                v.push(*rs1);
                v.push(*rs2);
            },
            Rv32i::Sh { rs1, rs2, .. } => {
                v.push(*rs1);
                v.push(*rs2);
            },
            Rv32i::Sw { rs1, rs2, .. } => {
                v.push(*rs1);
                v.push(*rs2);
            },
            Rv32i::Addi { rs1, .. } => {
                v.push(*rs1);
            },
            Rv32i::Slti { rs1, .. } => {
                v.push(*rs1);
            },
            Rv32i::Sltiu { rs1, .. } => {
                v.push(*rs1);
            },
            Rv32i::Xori { rs1, .. } => {
                v.push(*rs1);
            },
            Rv32i::Ori { rs1, .. } => {
                v.push(*rs1);
            },
            Rv32i::Andi { rs1, .. } => {
                v.push(*rs1);
            },
            Rv32i::Slli { rs1, .. } => {
                v.push(*rs1);
            },
            Rv32i::Srli { rs1, .. } => {
                v.push(*rs1);
            },
            Rv32i::Srai { rs1, .. } => {
                v.push(*rs1);
            },
            Rv32i::Add { rs1, rs2, .. } => {
                v.push(*rs1);
                v.push(*rs2);
            },
            Rv32i::Sub { rs1, rs2, .. } => {
                v.push(*rs1);
                v.push(*rs2);
            },
            Rv32i::Sll { rs1, rs2, .. } => {
                v.push(*rs1);
                v.push(*rs2);
            },
            Rv32i::Slt { rs1, rs2, .. } => {
                v.push(*rs1);
                v.push(*rs2);
            },
            Rv32i::Sltu { rs1, rs2, .. } => {
                v.push(*rs1);
                v.push(*rs2);
            },
            Rv32i::Xor { rs1, rs2, .. } => {
                v.push(*rs1);
                v.push(*rs2);
            },
            Rv32i::Srl { rs1, rs2, .. } => {
                v.push(*rs1);
                v.push(*rs2);
            },
            Rv32i::Sra { rs1, rs2, .. } => {
                v.push(*rs1);
                v.push(*rs2);
            },
            Rv32i::Or { rs1, rs2, .. } => {
                v.push(*rs1);
                v.push(*rs2);
            },
            Rv32i::And { rs1, rs2, .. } => {
                v.push(*rs1);
                v.push(*rs2);
            },
        }
        proof {
            assert(v@ =~= self.spec_src_regs());
        }
        v
    }

    fn dst_reg(&self) -> (r: Option<u64>) {
        match self {
            Rv32i::Lui { rd, .. } => Some(*rd),
            Rv32i::Auipc { rd, .. } => Some(*rd),
            Rv32i::Jal { rd, .. } => Some(*rd),
            Rv32i::Jalr { rd, .. } => Some(*rd),
            Rv32i::Beq { .. } => None,
            Rv32i::Bne { .. } => None,
            Rv32i::Blt { .. } => None,
            Rv32i::Bge { .. } => None,
            Rv32i::Bltu { .. } => None,
            Rv32i::Bgeu { .. } => None,
            Rv32i::Lb { rd, .. } => Some(*rd),
            Rv32i::Lh { rd, .. } => Some(*rd),
            Rv32i::Lw { rd, .. } => Some(*rd),
            Rv32i::Lbu { rd, .. } => Some(*rd),
            Rv32i::Lhu { rd, .. } => Some(*rd),
            Rv32i::Sb { .. } => None,
            Rv32i::Sh { .. } => None,
            Rv32i::Sw { .. } => None,
            Rv32i::Addi { rd, .. } => Some(*rd),
            Rv32i::Slti { rd, .. } => Some(*rd),
            Rv32i::Sltiu { rd, .. } => Some(*rd),
            Rv32i::Xori { rd, .. } => Some(*rd),
            Rv32i::Ori { rd, .. } => Some(*rd),
            Rv32i::Andi { rd, .. } => Some(*rd),
            Rv32i::Slli { rd, .. } => Some(*rd),
            Rv32i::Srli { rd, .. } => Some(*rd),
            Rv32i::Srai { rd, .. } => Some(*rd),
            Rv32i::Add { rd, .. } => Some(*rd),
            Rv32i::Sub { rd, .. } => Some(*rd),
            Rv32i::Sll { rd, .. } => Some(*rd),
            Rv32i::Slt { rd, .. } => Some(*rd),
            Rv32i::Sltu { rd, .. } => Some(*rd),
            Rv32i::Xor { rd, .. } => Some(*rd),
            Rv32i::Srl { rd, .. } => Some(*rd),
            Rv32i::Sra { rd, .. } => Some(*rd),
            Rv32i::Or { rd, .. } => Some(*rd),
            Rv32i::And { rd, .. } => Some(*rd),
        }
    }

    fn src_mem_addr(&self) -> (r: Option<u64>) {
        match self {
            Rv32i::Lb { rs1, imm, .. } => Some(ops::wrap_add(*rs1, *imm)),
            Rv32i::Lh { rs1, imm, .. } => Some(ops::wrap_add(*rs1, *imm)),
            Rv32i::Lw { rs1, imm, .. } => Some(ops::wrap_add(*rs1, *imm)),
            Rv32i::Lbu { rs1, imm, .. } => Some(ops::wrap_add(*rs1, *imm)),
            Rv32i::Lhu { rs1, imm, .. } => Some(ops::wrap_add(*rs1, *imm)),
            _ => None,
        }
    }

    fn dst_mem_addr(&self) -> (r: Option<u64>) {
        match self {
            Rv32i::Sb { rs1, imm, .. } => Some(ops::wrap_add(*rs1, *imm)),
            Rv32i::Sh { rs1, imm, .. } => Some(ops::wrap_add(*rs1, *imm)),
            Rv32i::Sw { rs1, imm, .. } => Some(ops::wrap_add(*rs1, *imm)),
            _ => None,
        }
    }

    fn is_ld(&self) -> (r: bool) {
        match self {
            Rv32i::Lb { .. } => true,
            Rv32i::Lh { .. } => true,
            Rv32i::Lw { .. } => true,
            Rv32i::Lbu { .. } => true,
            Rv32i::Lhu { .. } => true,
            _ => false,
        }
    }

    fn is_st(&self) -> (r: bool) {
        match self {
            Rv32i::Sb { .. } => true,
            Rv32i::Sh { .. } => true,
            Rv32i::Sw { .. } => true,
            _ => false,
        }
    }

    fn is_br(&self) -> (r: bool) {
        match self {
            Rv32i::Beq { .. } => true,
            Rv32i::Bne { .. } => true,
            Rv32i::Blt { .. } => true,
            Rv32i::Bge { .. } => true,
            Rv32i::Bltu { .. } => true,
            Rv32i::Bgeu { .. } => true,
            _ => false,
        }
    }

    fn is_jmp(&self) -> (r: bool) {
        match self {
            Rv32i::Jal { .. } => true,
            Rv32i::Jalr { .. } => true,
            _ => false,
        }
    }
}

/// Decode is total: every word either yields a variant whose register index
/// fields are all below 32, or exactly `IllegalInstruction` carrying the word.
pub proof fn lemma_decode_total32(ins: u32)
    ensures
        match Rv32i::spec_id(ins) {
            Ok(v) => v.srcs_ok() && v.dst_ok(),
            Err(e) => e == Exception::IllegalInstruction(ins as u64),
        },
{
}

/// A variant has no destination register exactly when it is a branch or a
/// store.
pub proof fn lemma_dst_reg_none32(i: Rv32i)
    ensures
        i.spec_dst_reg() is None <==> (i.spec_is_br() || i.spec_is_st()),
{
}

/// Loads and stores exclude each other, and exclude branches and jumps.
pub proof fn lemma_ld_st_predicates32(i: Rv32i)
    ensures
        i.spec_is_ld() || i.spec_is_st() ==> i.spec_is_ld() != i.spec_is_st() && !i.spec_is_br()
            && !i.spec_is_jmp(),
{
}

/// `wr` keeps the register file 32 entries long and the RAM size fixed, and
/// an instruction that faults leaves registers and memory untouched.
pub proof fn lemma_wr_wf32(i: Rv32i, pc: u64, regs: Seq<u64>, mem: Seq<u8>)
    requires
        regs.len() == 32,
        mem.len() == crate::bus::RAM_SIZE,
        i.dst_ok(),
    ensures
        ({
            let eff = i.spec_wr(pc, regs, mem);
            &&& eff.regs.len() == 32
            &&& eff.mem.len() == mem.len()
            &&& (eff.next matches Err(_) ==> eff.regs == regs && eff.mem == mem)
        }),
{
    match i {
        Rv32i::Sb { rs1, rs2, imm } => {
            let addr = spec_wrap_add(rs1, imm);
            if crate::bus::in_ram(addr, 1) {
                crate::mem::lemma_le_store_frame(
                    mem,
                    addr - crate::bus::RAM_BASE,
                    1,
                    (rs2 % 0x100) as nat,
                );
            }
        },
        Rv32i::Sh { rs1, rs2, imm } => {
            let addr = spec_wrap_add(rs1, imm);
            if crate::bus::in_ram(addr, 2) {
                crate::mem::lemma_le_store_frame(
                    mem,
                    addr - crate::bus::RAM_BASE,
                    2,
                    (rs2 % 0x1_0000) as nat,
                );
            }
        },
        Rv32i::Sw { rs1, rs2, imm } => {
            let addr = spec_wrap_add(rs1, imm);
            if crate::bus::in_ram(addr, 4) {
                crate::mem::lemma_le_store_frame(
                    mem,
                    addr - crate::bus::RAM_BASE,
                    4,
                    (rs2 % 0x1_0000_0000) as nat,
                );
            }
        },
        _ => {},
    }
}

/// Writes to register 0 are discarded: an instruction whose destination is
/// register 0, committed and followed by the architectural re-zero of that
/// register, leaves the whole register file and the memory as they were.
pub proof fn lemma_zero_dst_discard32(i: Rv32i, pc: u64, regs: Seq<u64>, mem: Seq<u8>)
    requires
        regs.len() == 32,
        regs[0] == 0,
        i.spec_dst_reg() == Some(0u64),
    ensures
        i.spec_wr(pc, regs, mem).regs.update(0, 0u64) == regs,
        i.spec_wr(pc, regs, mem).mem == mem,
{
    let eff = i.spec_wr(pc, regs, mem);
    assert(eff.regs.update(0, 0u64) =~= regs);
}

/// Branch symmetry: BEQ takes its target exactly when BNE does not; BLT and
/// BGE partition the signed comparisons; BLTU and BGEU partition the
/// unsigned ones.
pub proof fn lemma_branch_symmetry(a: u64, b: u64, imm: u64, pc: u64, regs: Seq<u64>, mem: Seq<u8>)
    ensures
        (Rv32i::Beq { rs1: a, rs2: b, imm }).spec_wr(pc, regs, mem).next == Ok::<u64, Exception>(
            branch_next(pc, imm, a == b),
        ),
        (Rv32i::Bne { rs1: a, rs2: b, imm }).spec_wr(pc, regs, mem).next == Ok::<u64, Exception>(
            branch_next(pc, imm, !(a == b)),
        ),
        (Rv32i::Blt { rs1: a, rs2: b, imm }).spec_wr(pc, regs, mem).next == Ok::<u64, Exception>(
            branch_next(pc, imm, as_signed(a) < as_signed(b)),
        ),
        (Rv32i::Bge { rs1: a, rs2: b, imm }).spec_wr(pc, regs, mem).next == Ok::<u64, Exception>(
            branch_next(pc, imm, !(as_signed(a) < as_signed(b))),
        ),
        (Rv32i::Bltu { rs1: a, rs2: b, imm }).spec_wr(pc, regs, mem).next == Ok::<u64, Exception>(
            branch_next(pc, imm, a < b),
        ),
        (Rv32i::Bgeu { rs1: a, rs2: b, imm }).spec_wr(pc, regs, mem).next == Ok::<u64, Exception>(
            branch_next(pc, imm, !(a < b)),
        ),
{
}

/// Encode `ADDI rd, rs1, imm`. Decoding the encoded word recovers the same
/// destination, source and immediate (the immediate sign-extended to 64
/// bits): the immediate-extraction round trip.
pub fn encode_addi(rd: u64, rs1: u64, imm: i64) -> (w: u32)
    requires
        rd < 32,
        rs1 < 32,
        -2048 <= imm < 2048,
    ensures
        Rv32i::spec_id(w) == Ok::<Rv32i, Exception>(Rv32i::Addi { rd, rs1, imm: imm as u64 }),
{
    let imm_field: u32 = if imm < 0 {
        (imm + 4096) as u32
    } else {
        imm as u32
    };
    let rs1f = rs1 as u32;
    let rdf = rd as u32;
    let w = imm_field * 0x10_0000 + rs1f * 0x8000 + rdf * 0x80 + 0x13;
    proof {
        assert(spec_opcode(w) == 0x13 && spec_funct3(w) == 0 && spec_rd(w) == rdf && spec_rs1(w)
            == rs1f && w / 0x10_0000 == imm_field) by (bit_vector)
            requires
                w == imm_field * 0x10_0000 + rs1f * 0x8000 + rdf * 0x80 + 0x13,
                imm_field < 4096,
                rs1f < 32,
                rdf < 32,
        ;
        if imm < 0 {
            assert(imm as u64 == ((imm + 4096) as u64 + 0xFFFF_FFFF_FFFF_F000) as u64)
                by (bit_vector)
                requires
                    -2048 <= imm < 0,
            ;
        }
    }
    w
}

} // verus!
