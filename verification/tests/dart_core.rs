//! End-to-end scenarios on the plain functional core.

use rvsim::bus::RAM_BASE;
use rvsim::dart::DartSoC;
use rvsim::exception::Exception;

fn image(words: &[u32]) -> Vec<u8> {
    let mut bytes = Vec::new();
    for w in words {
        bytes.push((*w & 0xFF) as u8);
        bytes.push(((*w >> 8) & 0xFF) as u8);
        bytes.push(((*w >> 16) & 0xFF) as u8);
        bytes.push(((*w >> 24) & 0xFF) as u8);
    }
    bytes
}

#[test]
fn addi_into_x31() {
    // addi x31, x0, 42; <illegal>
    let mut cpu = DartSoC::new(image(&[0x02A00F93, 0]));
    let ex = cpu.execute();
    assert_eq!(ex, Some(Exception::IllegalInstruction(0)));
    assert_eq!(cpu.regs[31], 42);
    assert_eq!(cpu.pc, RAM_BASE + 4);
    assert_eq!(cpu.stats.alu_ops, 1);
    assert_eq!(cpu.stats.mem_ops, 0);
}

#[test]
fn jump_and_link() {
    // jal x1, +8; <illegal 0xFFFFFFFF>; addi x5, x0, 7; <illegal>
    let mut cpu = DartSoC::new(image(&[0x008000EF, 0xFFFFFFFF, 0x00700293, 0]));
    let ex = cpu.execute();
    assert_eq!(ex, Some(Exception::IllegalInstruction(0)));
    assert_eq!(cpu.regs[1], RAM_BASE + 4);
    assert_eq!(cpu.regs[5], 7);
    assert_eq!(cpu.pc, RAM_BASE + 12);
}

#[test]
fn word_sign_extension() {
    // lui x1, 0x80000; addw x2, x1, x1; <illegal>
    let mut cpu = DartSoC::new(image(&[0x800000B7, 0x0010813B, 0]));
    let ex = cpu.execute();
    assert_eq!(ex, Some(Exception::IllegalInstruction(0)));
    assert_eq!(cpu.regs[1], 0xFFFF_FFFF_8000_0000);
    // the low words wrap to zero, and bit 31 of the wrapped sum is 0
    assert_eq!(cpu.regs[2], 0);
}

#[test]
fn bus_fault() {
    // addi x1, x0, 0; ld x2, 0(x1)
    let mut cpu = DartSoC::new(image(&[0x00000093, 0x0000B103]));
    let ex = cpu.execute();
    assert_eq!(ex, Some(Exception::LoadAccessFault(0)));
    assert_eq!(cpu.stats.mem_ops, 1);
    assert_eq!(cpu.stats.alu_ops, 1);
    // the faulting load leaves its destination untouched (x2 is the stack
    // pointer, initialised to the top of RAM)
    assert_eq!(cpu.regs[2], rvsim::bus::RAM_END);
}

#[test]
fn store_then_load() {
    // addi x1, x0, 1; slli x1, x1, 31  (x1 = RAM_BASE)
    // addi x2, x0, -2                  (x2 = 0xFFFF...FE)
    // sd x2, 256(x1); ld x3, 256(x1); <illegal>
    let sd = 0x10000000u32 | (2 << 20) | (1 << 15) | (3 << 12) | 0x23; // sd x2, 256(x1)
    let ld = (256u32 << 20) | (1 << 15) | (3 << 12) | (3 << 7) | 0x03; // ld x3, 256(x1)
    let mut cpu = DartSoC::new(image(&[0x00100093, 0x01F09093, 0xFFE00113, sd, ld, 0]));
    let ex = cpu.execute();
    assert_eq!(ex, Some(Exception::IllegalInstruction(0)));
    assert_eq!(cpu.regs[1], RAM_BASE);
    assert_eq!(cpu.regs[3], 0xFFFF_FFFF_FFFF_FFFE);
    assert_eq!(cpu.stats.mem_ops, 2);
    assert_eq!(cpu.stats.alu_ops, 3);
}

#[test]
fn branch_taken_and_not_taken() {
    // addi x1, x0, 1; beq x1, x1, +8; addi x2, x0, 7; addi x3, x0, 9; <illegal>
    let mut cpu = DartSoC::new(image(&[0x00100093, 0x00108463, 0x00700113, 0x00900193, 0]));
    cpu.execute();
    // the skipped addi leaves x2 at its stack-pointer initial value
    assert_eq!(cpu.regs[2], rvsim::bus::RAM_END);
    assert_eq!(cpu.regs[3], 9);

    // bne x1, x1, +8 (not taken): both later instructions run
    // bne x1, x1, 8 = funct3 1
    let bne = 0x00108463u32 | (1 << 12);
    let mut cpu = DartSoC::new(image(&[0x00100093, bne, 0x00700113, 0x00900193, 0]));
    cpu.execute();
    assert_eq!(cpu.regs[2], 7);
    assert_eq!(cpu.regs[3], 9);
}

#[test]
fn signed_branch_partition() {
    // x1 = -1 (addi x1, x0, -1), x2 = 1
    // blt x1, x2, +8 is taken (signed); bltu x1, x2, +8 is not (unsigned)
    let blt = (2u32 << 20) | (1 << 15) | (4 << 12) | (8 << 7) | 0x63; // blt x1, x2, +8
    let bltu = (2u32 << 20) | (1 << 15) | (6 << 12) | (8 << 7) | 0x63; // bltu x1, x2, +8
    let mut cpu = DartSoC::new(image(&[0xFFF00093, 0x00100113, blt, 0x00700193, 0x00900213, 0]));
    cpu.execute();
    assert_eq!(cpu.regs[3], 0); // skipped by the taken blt
    assert_eq!(cpu.regs[4], 9);

    let mut cpu = DartSoC::new(image(&[0xFFF00093, 0x00100113, bltu, 0x00700193, 0x00900213, 0]));
    cpu.execute();
    assert_eq!(cpu.regs[3], 7); // bltu is unsigned: u64::MAX < 1 is false
    assert_eq!(cpu.regs[4], 9);
}

#[test]
fn zero_register_write_discarded() {
    // addi x0, x0, 5; addi x1, x0, 3; <illegal>
    let addi_x0 = (5u32 << 20) | 0x13;
    let mut cpu = DartSoC::new(image(&[addi_x0, 0x00300093, 0]));
    cpu.execute();
    assert_eq!(cpu.regs[0], 0);
    assert_eq!(cpu.regs[1], 3);
}

#[test]
fn stack_pointer_initialised() {
    let cpu = DartSoC::new(vec![]);
    assert_eq!(cpu.regs[2], rvsim::bus::RAM_END);
    assert_eq!(cpu.regs[0], 0);
    assert_eq!(cpu.pc, RAM_BASE);
}

#[test]
fn shift_semantics() {
    // x1 = -8 (0xFFFF...F8); srai x2, x1, 2 -> -2; srli x3, x1, 28.
    // The shift amount 28 needs all five bits of the shamt field.
    let srai = (0x20u32 << 25) | (2 << 20) | (1 << 15) | (5 << 12) | (2 << 7) | 0x13;
    let srli = (28u32 << 20) | (1 << 15) | (5 << 12) | (3 << 7) | 0x13;
    let mut cpu = DartSoC::new(image(&[0xFF800093, srai, srli, 0]));
    cpu.execute();
    assert_eq!(cpu.regs[1], 0xFFFF_FFFF_FFFF_FFF8);
    assert_eq!(cpu.regs[2], 0xFFFF_FFFF_FFFF_FFFE);
    assert_eq!(cpu.regs[3], 0xF_FFFF_FFFF);
}

#[test]
fn narrow_loads_and_upper_immediates() {
    // x1 := RAM_BASE, then load the first program bytes back at every
    // width; auipc and jalr compute against the instruction's own address.
    let mut cpu = DartSoC::new(image(&[
        0x00100093, // addi x1, x0, 1     (bytes 93 00 10 00)
        0x01F09093, // slli x1, x1, 31
        0x00008183, // lb  x3, 0(x1)
        0x0000C203, // lbu x4, 0(x1)
        0x00009283, // lh  x5, 0(x1)
        0x0000E303, // lwu x6, 0(x1)
        0x00001397, // auipc x7, 1
        0x02008467, // jalr x8, 32(x1)
        0,
    ]));
    let ex = cpu.execute();
    assert_eq!(ex, Some(Exception::IllegalInstruction(0)));
    assert_eq!(cpu.regs[3], 0xFFFF_FFFF_FFFF_FF93); // sign-extended byte
    assert_eq!(cpu.regs[4], 0x93); // zero-extended byte
    assert_eq!(cpu.regs[5], 0x0093); // sign-extended halfword (positive)
    assert_eq!(cpu.regs[6], 0x00100093); // zero-extended word
    assert_eq!(cpu.regs[7], RAM_BASE + 24 + 0x1000);
    assert_eq!(cpu.regs[8], RAM_BASE + 32);
    assert_eq!(cpu.pc, RAM_BASE + 32);
}

#[test]
fn narrow_stores_mask_their_value() {
    // sb stores only the low byte of its value.
    // x1 := RAM_BASE; x2 := -1; sb x2, 64(x1); lhu x3, 64(x1)
    let sb = (0x02u32 << 25) | (2 << 20) | (1 << 15) | (0 << 12) | (0 << 7) | 0x23; // sb x2, 64(x1)
    let lhu = (64u32 << 20) | (1 << 15) | (5 << 12) | (3 << 7) | 0x03; // lhu x3, 64(x1)
    let mut cpu = DartSoC::new(image(&[
        0x00100093, // addi x1, x0, 1
        0x01F09093, // slli x1, x1, 31
        0xFFF00113, // addi x2, x0, -1
        sb, lhu, 0,
    ]));
    cpu.execute();
    // only one byte was written
    assert_eq!(cpu.regs[3], 0x00FF);
}
