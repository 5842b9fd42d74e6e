//! End-to-end scenarios on the two out-of-order cycle-accounting cores.

use rvsim::atlas::AtlasSoC;
use rvsim::exception::Exception;
use rvsim::kronos::KronosSoC;

fn image(words: &[u32]) -> Vec<u8> {
    let mut bytes = Vec::new();
    for w in words {
        bytes.push((*w & 0xFF) as u8);
        bytes.push(((*w >> 8) & 0xFF) as u8);
        bytes.push(((*w >> 16) & 0xFF) as u8);
        bytes.push(((*w >> 24) & 0xFF) as u8);
    }
    bytes
}

#[test]
fn kronos_single_alu_op() {
    // One independent instruction fires in the first accounting cycle.
    let mut cpu = KronosSoC::new(image(&[0x02A00F93, 0]));
    let ex = cpu.execute();
    assert_eq!(ex, Some(Exception::IllegalInstruction(0)));
    assert_eq!(cpu.regs[31], 42);
    assert_eq!(cpu.stats.cycles, 1);
    assert_eq!(cpu.stats.stalls, 0);
    assert_eq!(cpu.stats.alu_ops, 1);
    assert_eq!(cpu.stats.mem_ops, 0);
}

#[test]
fn kronos_dependent_chain_with_blocking_load() {
    // addi x1, x0, 1; slli x1, x1, 31; ld x2, 0(x1); addi x3, x2, 1.
    // Each instruction depends on the one before it, and the load is a
    // blocking instruction in this model.
    let mut cpu = KronosSoC::new(image(&[
        0x00100093, // addi x1, x0, 1
        0x01F09093, // slli x1, x1, 31
        0x0000B103, // ld x2, 0(x1)
        0x00110193, // addi x3, x2, 1
        0,
    ]));
    let ex = cpu.execute();
    assert_eq!(ex, Some(Exception::IllegalInstruction(0)));
    // the load reads the first two program words back
    assert_eq!(cpu.regs[2], 0x01F09093_00100093);
    assert_eq!(cpu.regs[3], 0x01F09093_00100094);
    assert_eq!(cpu.stats.cycles, 4);
    assert_eq!(cpu.stats.stalls, 3);
    assert_eq!(cpu.stats.alu_ops, 3);
    assert_eq!(cpu.stats.mem_ops, 1);
}

#[test]
fn kronos_independent_ops_fire_together() {
    // Three ALU instructions with disjoint registers retire in one cycle.
    let mut cpu = KronosSoC::new(image(&[
        0x00100093, // addi x1, x0, 1
        0x00200113, // addi x2, x0, 2
        0x00300193, // addi x3, x0, 3
        0,
    ]));
    let ex = cpu.execute();
    assert_eq!(ex, Some(Exception::IllegalInstruction(0)));
    assert_eq!((cpu.regs[1], cpu.regs[2], cpu.regs[3]), (1, 2, 3));
    assert_eq!(cpu.stats.cycles, 1);
    assert_eq!(cpu.stats.stalls, 0);
}

#[test]
fn atlas_control_blocking_only() {
    // The same dependent chain: in this model the load does not block, so
    // no stalls are charged, but the dependences still take four cycles.
    let mut cpu = AtlasSoC::new(image(&[
        0x00100093, // addi x1, x0, 1
        0x01F09093, // slli x1, x1, 31
        0x0000B103, // ld x2, 0(x1)
        0x00110193, // addi x3, x2, 1
        0,
    ]));
    let ex = cpu.execute();
    assert_eq!(ex, Some(Exception::IllegalInstruction(0)));
    assert_eq!(cpu.regs[3], 0x01F09093_00100094);
    assert_eq!(cpu.stats.cycles, 4);
    assert_eq!(cpu.stats.stalls, 0);
}

#[test]
fn atlas_memory_aliasing_tracked() {
    // sd x0, 0(x1) then ld x2, 0(x1): the load's source address aliases
    // the store's destination address, so the load cannot fire in the
    // store's cycle even once its registers are ready.
    let mut cpu = AtlasSoC::new(image(&[
        0x00100093, // addi x1, x0, 1
        0x01F09093, // slli x1, x1, 31
        0x0000B023, // sd x0, 0(x1)
        0x0000B103, // ld x2, 0(x1)
        0,
    ]));
    let ex = cpu.execute();
    assert_eq!(ex, Some(Exception::IllegalInstruction(0)));
    assert_eq!(cpu.regs[2], 0);
    assert_eq!(cpu.stats.cycles, 4);
    assert_eq!(cpu.stats.stalls, 0);
    assert_eq!(cpu.stats.mem_ops, 2);
    assert_eq!(cpu.stats.alu_ops, 2);
}

#[test]
fn atlas_branch_blocks_the_window() {
    // addi x1, x0, 1; beq x1, x1, +8; addi x2, x0, 7; addi x3, x0, 9: the
    // taken branch skips the middle addi and serializes the window, so the
    // final addi retires a cycle behind it.
    let mut cpu = AtlasSoC::new(image(&[
        0x00100093, // addi x1, x0, 1
        0x00108463, // beq x1, x1, +8
        0x00700113, // addi x2, x0, 7
        0x00900193, // addi x3, x0, 9
        0,
    ]));
    let ex = cpu.execute();
    assert_eq!(ex, Some(Exception::IllegalInstruction(0)));
    // the skipped addi leaves x2 at its stack-pointer initial value
    assert_eq!(cpu.regs[2], rvsim::bus::RAM_END);
    assert_eq!(cpu.regs[3], 9);
    assert_eq!(cpu.stats.cycles, 3);
    assert_eq!(cpu.stats.stalls, 2);
    assert_eq!(cpu.stats.alu_ops, 3);
}

#[test]
fn cores_agree_on_architectural_state() {
    // The functional core and both accounting cores retire the same
    // program to the same registers, program counter and exception.
    let program = image(&[
        0x00100093, // addi x1, x0, 1
        0x01F09093, // slli x1, x1, 31
        0x0000B023, // sd x0, 0(x1)
        0x0000B103, // ld x2, 0(x1)
        0x00110193, // addi x3, x2, 1
        0x00108463, // beq x1, x1, +8 (skips one word)
        0xFFFFFFFF,
        0x00700293, // addi x5, x0, 7
        0,
    ]);
    let mut dart = rvsim::dart::DartSoC::new(program.clone());
    let mut kronos = KronosSoC::new(program.clone());
    let mut atlas = AtlasSoC::new(program);
    let ex_d = dart.execute();
    let ex_k = kronos.execute();
    let ex_a = atlas.execute();
    assert_eq!(ex_d, ex_k);
    assert_eq!(ex_d, ex_a);
    assert_eq!(dart.regs, kronos.regs);
    assert_eq!(dart.regs, atlas.regs);
    assert_eq!(dart.pc, kronos.pc);
    assert_eq!(dart.pc, atlas.pc);
    assert_eq!(dart.stats.alu_ops, kronos.stats.alu_ops);
    assert_eq!(dart.stats.mem_ops, atlas.stats.mem_ops);
    assert_eq!(dart.regs[5], 7);
}
