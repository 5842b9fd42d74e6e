//! End-to-end scenarios on the in-order pipelined core.

use rvsim::bus::RAM_BASE;
use rvsim::cv64e40p::Cv64e40p;
use rvsim::exception::Exception;
use rvsim::soc::Isa;
use rvsim::zeus64::Zeus64;

fn image(words: &[u32]) -> Vec<u8> {
    let mut bytes = Vec::new();
    for w in words {
        bytes.push((*w & 0xFF) as u8);
        bytes.push(((*w >> 8) & 0xFF) as u8);
        bytes.push(((*w >> 16) & 0xFF) as u8);
        bytes.push(((*w >> 24) & 0xFF) as u8);
    }
    bytes
}

#[test]
fn load_use_stall() {
    // x1 := RAM_BASE; sd x0, 0(x1); ld x2, 0(x1); addi x3, x2, 1.
    // The addi depends on the load still in its second stage, so it stalls
    // one cycle waiting for the second-stage writeback.
    let mut cpu = Cv64e40p::new(image(&[
        0x00100093, // addi x1, x0, 1
        0x01F09093, // slli x1, x1, 31
        0x0000B023, // sd x0, 0(x1)
        0x0000B103, // ld x2, 0(x1)
        0x00110193, // addi x3, x2, 1
        0,
    ]));
    let r = cpu.execute();
    let exit = r.err().expect("run ends with a fatal exception");
    assert_eq!(exit.ex, Exception::IllegalInstruction(0));
    assert!(exit.stats.stalls >= 1);
    assert_eq!(cpu.regfile()[2], 0);
    assert_eq!(cpu.regfile()[3], 1);
    assert_eq!(exit.stats.mem_ops, 2);
}

#[test]
fn branch_flush() {
    // addi x1, x0, 1; beq x1, x1, +8; addi x2, x0, 7; addi x3, x0, 9.
    // The taken branch flushes the speculatively fetched addi x2.
    let mut cpu = Cv64e40p::new(image(&[
        0x00100093, // addi x1, x0, 1
        0x00108463, // beq x1, x1, +8
        0x00700113, // addi x2, x0, 7
        0x00900193, // addi x3, x0, 9
        0,
    ]));
    let r = cpu.execute();
    let exit = r.err().expect("run ends with a fatal exception");
    assert_eq!(exit.ex, Exception::IllegalInstruction(0));
    // the flushed addi leaves x2 at its stack-pointer initial value
    assert_eq!(cpu.regfile()[2], rvsim::bus::RAM_END);
    assert_eq!(cpu.regfile()[3], 9);
}

#[test]
fn jump_and_link_pipelined() {
    // jal x1, +8; <garbage skipped>; addi x5, x0, 7
    let mut cpu = Cv64e40p::new(image(&[0x008000EF, 0xFFFFFFFF, 0x00700293, 0]));
    let r = cpu.execute();
    let exit = r.err().expect("run ends with a fatal exception");
    assert_eq!(exit.ex, Exception::IllegalInstruction(0));
    assert_eq!(cpu.regfile()[1], RAM_BASE + 4);
    assert_eq!(cpu.regfile()[5], 7);
}

#[test]
fn pipelined_counters() {
    // A single ALU instruction: one execute cycle, no stalls or memory.
    let mut cpu = Cv64e40p::new(image(&[0x02A00F93, 0]));
    let r = cpu.execute();
    let exit = r.err().expect("run ends with a fatal exception");
    assert_eq!(cpu.regfile()[31], 42);
    assert_eq!(exit.stats.alu_ops, 1);
    assert_eq!(exit.stats.mem_ops, 0);
    assert_eq!(exit.stats.stalls, 0);
    assert!(exit.stats.cycles >= 4);
    assert_eq!(exit.stats, cpu.stats());
}

#[test]
fn zeus_wraps_the_pipelined_core() {
    let mut cpu = Zeus64::new(image(&[0x02A00F93, 0]));
    assert_eq!(cpu.pc(), RAM_BASE);
    let r = cpu.execute();
    let exit = r.err().expect("run ends with a fatal exception");
    assert_eq!(exit.ex, Exception::IllegalInstruction(0));
    assert_eq!(cpu.regfile()[31], 42);
    assert_eq!(cpu.stats().alu_ops, 1);
}

#[test]
fn isa_word_helpers() {
    let cpu = Cv64e40p::new(vec![]);
    assert_eq!(cpu.pc(), RAM_BASE);
    assert_eq!(cpu.ureg(2), rvsim::bus::RAM_END);
    assert_eq!(cpu.ureg(0), 0);
    assert_eq!(cpu.ireg(0), 0);
    assert!(Cv64e40p::is_ld(0x0000B103));
    assert!(Cv64e40p::is_st(0x0000B023));
    assert!(Cv64e40p::is_br(0x00108463));
    assert!(Cv64e40p::is_jmp(0x008000EF));
    assert!(Cv64e40p::is_alu_op(0x02A00F93));
    assert!(!Cv64e40p::is_zicsr(0x02A00F93));
    assert_eq!(Cv64e40p::rd(0x02A00F93), 31);
    assert_eq!(Cv64e40p::i_imm(0x02A00F93), 42);
    assert_eq!(cpu.src_regs(0x00108463), vec![1, 1]);
    assert_eq!(cpu.src_regs(0x008000EF), Vec::<usize>::new());
    // alu at an explicit program counter
    assert_eq!(cpu.alu(0, 0x02A00F93), Ok(42));
    // branch and jump targets are computed at the given program counter
    assert_eq!(cpu.br(0x1000, 0x00108463), Ok(Some(0x1008)));
    assert_eq!(cpu.jmp(0x1000, 0x008000EF), Ok((0x1008, 0x1004)));
}
