//! Decoder tests: field extraction, immediate forms, both families, and
//! the dependency queries.

use rvsim::exception::Exception;
use rvsim::isa::{b_imm, funct3, funct7, i_imm, j_imm, opcode, rd, rs1, rs2, s_imm, u_imm, Extension};
use rvsim::rv32i::{encode_addi, Rv32i};
use rvsim::rv64i::Rv64i;

const ADDI_X31_X0_42: u32 = 0x02A00F93;

#[test]
fn addi() {
    let t = Rv32i::id(ADDI_X31_X0_42);
    assert!(t.is_ok());
    assert_eq!(t.as_ref().unwrap(), &Rv32i::Addi { rd: 31, rs1: 0, imm: 42 });
    let mut regs: Vec<u64> = vec![0; 32];
    regs[31] = 5;
    let t = t.unwrap().ex(&regs);
    assert_eq!(&t, &Rv32i::Addi { rd: 31, rs1: 0, imm: 42 });
    let mut bus = rvsim::bus::Bus::new(vec![]);
    let res = t.wr(0, &mut regs, &mut bus);
    assert!(res.is_ok());
    assert_eq!(res.unwrap(), 4);
    assert_eq!(regs[31], 42);
}

#[test]
fn field_extraction() {
    let w = ADDI_X31_X0_42;
    assert_eq!(opcode(w), 0x13);
    assert_eq!(rd(w), 31);
    assert_eq!(rs1(w), 0);
    assert_eq!(funct3(w), 0);
    assert_eq!(i_imm(w), 42);
    // add x3, x1, x2 = 0x002081B3
    let w = 0x002081B3;
    assert_eq!(opcode(w), 0x33);
    assert_eq!(rd(w), 3);
    assert_eq!(rs1(w), 1);
    assert_eq!(rs2(w), 2);
    assert_eq!(funct7(w), 0);
}

#[test]
fn immediate_forms() {
    // addi x0, x0, -1
    assert_eq!(i_imm(0xFFF00013), u64::MAX);
    // sd x0, -8(x1)
    assert_eq!(s_imm(0xFE00BC23), 0xFFFF_FFFF_FFFF_FFF8);
    // beq x0, x0, -4
    assert_eq!(b_imm(0xFE000EE3), 0xFFFF_FFFF_FFFF_FFFC);
    // jal x0, -4
    assert_eq!(j_imm(0xFFDFF06F), 0xFFFF_FFFF_FFFF_FFFC);
    // jal x1, +8
    assert_eq!(j_imm(0x008000EF), 8);
    // lui x1, 0x80000: the upper immediate is sign-extended into 64 bits
    assert_eq!(u_imm(0x800000B7), 0xFFFF_FFFF_8000_0000);
    // lui x1, 0x00001
    assert_eq!(u_imm(0x000010B7), 0x1000);
}

#[test]
fn addi_roundtrip() {
    // Round-trip of immediate extraction through the encoder.
    let w = encode_addi(31, 0, 42);
    assert_eq!(w, ADDI_X31_X0_42);
    assert_eq!(Rv32i::id(w).unwrap(), Rv32i::Addi { rd: 31, rs1: 0, imm: 42 });
    let w = encode_addi(5, 6, -1);
    assert_eq!(Rv32i::id(w).unwrap(), Rv32i::Addi { rd: 5, rs1: 6, imm: u64::MAX });
    let w = encode_addi(1, 2, -2048);
    assert_eq!(
        Rv32i::id(w).unwrap(),
        Rv32i::Addi { rd: 1, rs1: 2, imm: 0xFFFF_FFFF_FFFF_F800 }
    );
    let w = encode_addi(0, 0, 2047);
    assert_eq!(Rv32i::id(w).unwrap(), Rv32i::Addi { rd: 0, rs1: 0, imm: 2047 });
}

#[test]
fn illegal_instructions() {
    match Rv32i::id(0) {
        Err(Exception::IllegalInstruction(v)) => assert_eq!(v, 0),
        _ => panic!("expected illegal instruction"),
    }
    match Rv32i::id(0xFFFFFFFF) {
        Err(Exception::IllegalInstruction(v)) => assert_eq!(v, 0xFFFFFFFF),
        _ => panic!("expected illegal instruction"),
    }
    // ld is not part of the base family
    assert!(Rv32i::id(0x0000B103).is_err());
    // but is part of the 64-bit extension
    assert_eq!(Rv64i::id(0x0000B103).unwrap(), Rv64i::Ld { rd: 2, rs1: 1, imm: 0 });
}

#[test]
fn rv64i_decode() {
    // sd x0, 0(x1)
    assert_eq!(Rv64i::id(0x0000B023).unwrap(), Rv64i::Sd { rs1: 1, rs2: 0, imm: 0 });
    // addw x2, x1, x1
    assert_eq!(Rv64i::id(0x0010813B).unwrap(), Rv64i::Addw { rd: 2, rs1: 1, rs2: 1 });
    // addiw x1, x1, 1 = 0x0010809B
    assert_eq!(Rv64i::id(0x0010809B).unwrap(), Rv64i::Addiw { rd: 1, rs1: 1, imm: 1 });
}

#[test]
fn shift_amounts_use_five_bits() {
    // The word-width shift immediates mask the shift amount to five bits;
    // the architectural shamt field is bits [24:20] of the word.
    // slli x1, x1, 31
    assert_eq!(
        Rv32i::id(0x01F09093).unwrap(),
        Rv32i::Slli { rd: 1, rs1: 1, shamt: 31 }
    );
    // slliw x1, x1, 31 (opcode 0x1b)
    assert_eq!(
        Rv64i::id(0x01F0909B).unwrap(),
        Rv64i::Slliw { rd: 1, rs1: 1, shamt: 31 }
    );
}

#[test]
fn dependency_queries() {
    let beq = Rv32i::id(0x00108463).unwrap(); // beq x1, x1, +8
    assert_eq!(beq.dst_reg(), None);
    assert!(beq.is_br());
    assert!(!beq.is_jmp());
    assert!(!beq.is_ld());
    assert!(!beq.is_st());
    assert_eq!(beq.src_regs(), vec![1, 1]);

    let sd = Rv64i::id(0x0000B023).unwrap(); // sd x0, 0(x1)
    assert_eq!(sd.dst_reg(), None);
    assert!(sd.is_st());
    assert!(!sd.is_ld());
    assert_eq!(sd.src_regs(), vec![1, 0]);

    let ld = Rv64i::id(0x0000B103).unwrap(); // ld x2, 0(x1)
    assert_eq!(ld.dst_reg(), Some(2));
    assert!(ld.is_ld());
    assert!(!ld.is_st());

    // after resolution, the source memory address is rs1 + imm
    let mut regs: Vec<u64> = vec![0; 32];
    regs[1] = 0x8000_0000;
    let ld = ld.ex(&regs);
    assert_eq!(ld.src_mem_addr(), Some(0x8000_0000));
    let sd = sd.ex(&regs);
    assert_eq!(sd.dst_mem_addr(), Some(0x8000_0000));

    let jal = Rv32i::id(0x008000EF).unwrap(); // jal x1, +8
    assert!(jal.is_jmp());
    assert_eq!(jal.dst_reg(), Some(1));
    assert_eq!(jal.src_regs(), Vec::<u64>::new());
}
