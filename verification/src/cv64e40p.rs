//! The in-order pipelined core: fetch, decode, execute, write-back, with a
//! two-cycle load path.
//!
//! Latches `ifetch` and `idecode` carry an encoded word together with the
//! program counter it was fetched at, so branch targets and link values are
//! computed at the instruction's own address. The execute stage splits into
//! a single-cycle ALU path and a two-cycle load path (`ld_ins1`, then
//! `ld_ins2`), stalls on load-use hazards, and posts taken-branch redirects
//! to `branch_pc`; write-back commits results, performs second-stage loads,
//! and applies a pending redirect by flushing the front of the pipe. The
//! stages run in reverse pipeline order each cycle, and the fetch program
//! counter advances every cycle.
//!
//! The counters use `stalls` for stall cycles, `alu_ops` for execute cycles
//! and `mem_ops` for memory cycles.

use vstd::prelude::*;

use crate::bus::{Bus, RAM_BASE, RAM_SIZE};
use crate::exception::Exception;
use crate::isa::spec_rd;
use crate::mem::Bits;
use crate::ops;
use crate::ops::spec_wrap_add;
use crate::soc::{
    init_regs, new_regfile, spec_word_alu, spec_word_br, spec_word_jmp, spec_word_ld,
    spec_word_src_regs, spec_word_st, word_alu, word_br, word_jmp, word_ld, word_src_regs, word_st,
    Exit, Isa,
};
use crate::stats::Stats;

verus! {

/// The full state of the pipelined core as one mathematical value.
pub struct PipeState {
    pub regs: Seq<u64>,
    pub mem: Seq<u8>,
    pub pc: u64,
    pub stats: Stats,
    pub ifetch: Option<(u32, u64)>,
    pub idecode: Option<(u32, u64)>,
    pub ex: Option<(usize, u64)>,
    pub branch_pc: Option<u64>,
    pub ld1: Option<(u32, u64)>,
    pub ld2: Option<(u32, u64)>,
}

impl PipeState {
    pub open spec fn wf(self) -> bool {
        &&& self.regs.len() == 32
        &&& self.mem.len() == RAM_SIZE
        &&& (self.ex matches Some((rd, _)) ==> rd < 32)
    }
}

/// The write-back stage: commit a pending ALU result, perform and commit a
/// second-stage load, advance the load pipeline, and apply a pending branch
/// redirect (flushing fetch and decode). Writes to register 0 are
/// discarded. A faulting load stops the stage with the state as mutated so
/// far.
#[verifier::opaque]
pub open spec fn spec_wr_stage(s: PipeState) -> (PipeState, Result<(), Exception>) {
    let s1 = match s.ex {
        Some((rd, v)) => PipeState {
            regs: if rd == 0 {
                s.regs
            } else {
                s.regs.update(rd as int, v)
            },
            ex: None,
            ..s
        },
        None => s,
    };
    match s1.ld2 {
        Some((w, _)) => match spec_word_ld(s1.regs, s1.mem, w) {
            Ok(v) => {
                let s2 = PipeState {
                    regs: if spec_rd(w) == 0 {
                        s1.regs
                    } else {
                        s1.regs.update(spec_rd(w) as int, v)
                    },
                    ld2: None,
                    ..s1
                };
                (spec_wr_tail(s2), Ok(()))
            },
            Err(e) => (s1, Err(e)),
        },
        None => (spec_wr_tail(s1), Ok(())),
    }
}

/// The tail of write-back: load-pipeline advance and branch redirect.
pub open spec fn spec_wr_tail(s: PipeState) -> PipeState {
    let s3 = match (s.ld1, s.ld2) {
        (Some(l), None) => PipeState { ld2: Some(l), ld1: None, ..s },
        _ => s,
    };
    match s3.branch_pc {
        Some(t) => PipeState { pc: t, idecode: None, ifetch: None, branch_pc: None, ..s3 },
        None => s3,
    }
}

/// The execute stage: runs only when decode holds a word and both the ALU
/// latch and the first load latch are free. Jumps post their redirect and
/// link; branches post their redirect if taken; loads enter the two-cycle
/// load path; stores commit to memory; everything else takes the ALU path,
/// stalling one cycle if a source register is produced by a load still in
/// its second stage.
#[verifier::opaque]
pub open spec fn spec_ex_stage(s: PipeState) -> (PipeState, Result<(), Exception>) {
    match (s.idecode, s.ex, s.ld1) {
        (Some((w, ipc)), None, None) => {
            let opcode = crate::isa::spec_opcode(w);
            if opcode == 0x6f || opcode == 0x67 {
                match spec_word_jmp(s.regs, ipc, w) {
                    Ok((next, link)) => (
                        PipeState {
                            branch_pc: Some(next),
                            ex: Some((spec_rd(w) as usize, link)),
                            idecode: None,
                            ..s
                        },
                        Ok(()),
                    ),
                    Err(e) => (s, Err(e)),
                }
            } else if opcode == 0x63 {
                match spec_word_br(s.regs, ipc, w) {
                    Ok(t) => (PipeState { branch_pc: t, idecode: None, ..s }, Ok(())),
                    Err(e) => (s, Err(e)),
                }
            } else if opcode == 0x03 {
                (
                    PipeState {
                        ld1: Some((w, ipc)),
                        idecode: None,
                        stats: Stats { mem_ops: spec_wrap_add(s.stats.mem_ops, 1), ..s.stats },
                        ..s
                    },
                    Ok(()),
                )
            } else if opcode == 0x23 {
                match spec_word_st(s.regs, s.mem, w) {
                    Ok(m2) => (
                        PipeState {
                            mem: m2,
                            idecode: None,
                            stats: Stats { mem_ops: spec_wrap_add(s.stats.mem_ops, 1), ..s.stats },
                            ..s
                        },
                        Ok(()),
                    ),
                    Err(e) => (s, Err(e)),
                }
            } else {
                let srcs = spec_word_src_regs(w);
                let stall = match s.ld2 {
                    Some((lw, _)) => srcs.contains(spec_rd(lw) as usize),
                    None => false,
                };
                if stall {
                    (
                        PipeState {
                            stats: Stats { stalls: spec_wrap_add(s.stats.stalls, 1), ..s.stats },
                            ..s
                        },
                        Ok(()),
                    )
                } else {
                    match spec_word_alu(s.regs, ipc, w) {
                        Ok(v) => (
                            PipeState {
                                ex: Some((spec_rd(w) as usize, v)),
                                idecode: None,
                                stats: Stats {
                                    alu_ops: spec_wrap_add(s.stats.alu_ops, 1),
                                    ..s.stats
                                },
                                ..s
                            },
                            Ok(()),
                        ),
                        Err(e) => (s, Err(e)),
                    }
                }
            }
        },
        _ => (s, Ok(())),
    }
}

/// The decode stage: move the fetched word into the decode latch when the
/// latter is free.
pub open spec fn spec_idecode_stage(s: PipeState) -> PipeState {
    match (s.idecode, s.ifetch) {
        (None, Some(f)) => PipeState { idecode: Some(f), ifetch: None, ..s },
        _ => s,
    }
}

/// The fetch stage: load the word at the program counter when the fetch
/// latch is free.
pub open spec fn spec_ifetch_stage(s: PipeState) -> (PipeState, Result<(), Exception>) {
    match s.ifetch {
        None => match Bus::spec_load(s.mem, s.pc, 4) {
            Ok(w) => (PipeState { ifetch: Some((w as u32, s.pc)), ..s }, Ok(())),
            Err(e) => (s, Err(e)),
        },
        Some(_) => (s, Ok(())),
    }
}

/// One pipeline cycle: count it, then run write-back, execute, decode and
/// fetch in that order, and advance the fetch program counter. The second
/// component is the fatal exception that ends the run, if one was raised.
#[verifier::opaque]
pub open spec fn spec_cycle_p(s: PipeState) -> (PipeState, Option<Exception>) {
    let s0 = PipeState {
        stats: Stats { cycles: spec_wrap_add(s.stats.cycles, 1), ..s.stats },
        ..s
    };
    let (s1, r1) = spec_wr_stage(s0);
    match r1 {
        Err(e) if e.spec_is_fatal() => (s1, Some(e)),
        _ => {
            let (s2, r2) = spec_ex_stage(s1);
            match r2 {
                Err(e) if e.spec_is_fatal() => (s2, Some(e)),
                _ => {
                    let s3 = spec_idecode_stage(s2);
                    let (s4, r4) = spec_ifetch_stage(s3);
                    match r4 {
                        Err(e) if e.spec_is_fatal() => (s4, Some(e)),
                        _ => (PipeState { pc: spec_wrap_add(s4.pc, 4), ..s4 }, None),
                    }
                },
            }
        },
    }
}

/// The state after at most `n` cycles, stopping early at the first fatal
/// exception.
pub open spec fn spec_run_p(s: PipeState, n: nat) -> (PipeState, Option<Exception>)
    decreases n,
{
    if n == 0 {
        (s, None)
    } else {
        let (s1, r) = spec_cycle_p(s);
        match r {
            Some(e) => (s1, Some(e)),
            None => spec_run_p(s1, (n - 1) as nat),
        }
    }
}

/// Extending an unfinished run by one cycle runs `spec_cycle_p` on its
/// state.
pub proof fn lemma_run_step_p(s: PipeState, k: nat)
    requires
        spec_run_p(s, k).1 is None,
    ensures
        spec_run_p(s, k + 1) == ({
            let (t, _) = spec_run_p(s, k);
            let (t2, r2) = spec_cycle_p(t);
            (t2, r2)
        }),
    decreases k,
{
    let (s1, r) = spec_cycle_p(s);
    if k == 0 {
        if r is None {
            assert(spec_run_p(s1, 0) == (s1, None::<Exception>));
        }
    } else {
        match r {
            Some(_) => {
                assert(spec_run_p(s, k) == (s1, r));
            },
            None => {
                lemma_run_step_p(s1, (k - 1) as nat);
            },
        }
    }
}

/// A committed store keeps the RAM size.
pub proof fn lemma_word_st_wf(regs: Seq<u64>, mem: Seq<u8>, ins: u32)
    requires
        mem.len() == RAM_SIZE,
    ensures
        spec_word_st(regs, mem, ins) matches Ok(m2) ==> m2.len() == mem.len(),
{
    let addr = spec_wrap_add(regs[crate::isa::spec_rs1(ins) as int], crate::isa::spec_s_imm(ins));
    let value = regs[crate::isa::spec_rs2(ins) as int];
    let funct3 = crate::isa::spec_funct3(ins);
    if funct3 < 4 {
        let size: u64 = if funct3 == 0 {
            1
        } else if funct3 == 1 {
            2
        } else if funct3 == 2 {
            4
        } else {
            8
        };
        if crate::bus::in_ram(addr, size) {
            crate::mem::lemma_le_store_frame(
                mem,
                addr - RAM_BASE,
                size as int,
                value as nat,
            );
        }
    }
}

/// One cycle preserves well-formedness and keeps register 0 at zero.
pub proof fn lemma_cycle_wf_p(s: PipeState)
    requires
        s.wf(),
        s.regs[0] == 0,
    ensures
        spec_cycle_p(s).0.wf(),
        spec_cycle_p(s).0.regs[0] == 0,
{
    reveal(spec_cycle_p);
    reveal(spec_wr_stage);
    reveal(spec_ex_stage);
    let s0 = PipeState {
        stats: Stats { cycles: spec_wrap_add(s.stats.cycles, 1), ..s.stats },
        ..s
    };
    let s1 = match s0.ex {
        Some((rd, v)) => PipeState {
            regs: if rd == 0 {
                s0.regs
            } else {
                s0.regs.update(rd as int, v)
            },
            ex: None,
            ..s0
        },
        None => s0,
    };
    let (w1, r1) = spec_wr_stage(s0);
    assert(w1.wf() && w1.regs[0] == 0);
    match r1 {
        Err(e) if e.spec_is_fatal() => {},
        _ => {
            let (w2, r2) = spec_ex_stage(w1);
            match w1.idecode {
                Some((w, ipc)) => {
                    lemma_word_st_wf(w1.regs, w1.mem, w);
                },
                None => {},
            }
            assert(w2.wf() && w2.regs[0] == 0);
        },
    }
}

/// Register 0 reads as zero in every state a run of the pipelined core can
/// reach.
pub proof fn lemma_run_zero_register_p(s: PipeState, n: nat)
    requires
        s.wf(),
        s.regs[0] == 0,
    ensures
        spec_run_p(s, n).0.wf(),
        spec_run_p(s, n).0.regs[0] == 0,
    decreases n,
{
    if n > 0 {
        lemma_cycle_wf_p(s);
        let (s1, r) = spec_cycle_p(s);
        match r {
            Some(_) => {},
            None => {
                lemma_run_zero_register_p(s1, (n - 1) as nat);
            },
        }
    }
}

/// The in-order pipelined core.
pub struct Cv64e40p {
    regfile: Vec<u64>,
    pc: u64,
    bus: Bus,
    pub stats: Stats,
    ifetch: Option<(u32, u64)>,
    idecode: Option<(u32, u64)>,
    ex: Option<(usize, u64)>,
    branch_pc: Option<u64>,
    ld_ins1: Option<(u32, u64)>,
    ld_ins2: Option<(u32, u64)>,
}

impl View for Cv64e40p {
    type V = PipeState;

    closed spec fn view(&self) -> PipeState {
        PipeState {
            regs: self.regfile@,
            mem: self.bus.mem@,
            pc: self.pc,
            stats: self.stats,
            ifetch: self.ifetch,
            idecode: self.idecode,
            ex: self.ex,
            branch_pc: self.branch_pc,
            ld1: self.ld_ins1,
            ld2: self.ld_ins2,
        }
    }
}

impl Cv64e40p {
    pub open spec fn wf(self) -> bool {
        self@.wf()
    }

    /// A core whose RAM holds `bin` at the base of the window, with all
    /// pipeline latches empty.
    pub fn new(bin: Vec<u8>) -> (r: Cv64e40p)
        requires
            bin@.len() <= RAM_SIZE,
        ensures
            r.wf(),
            r@.regs == init_regs(),
            r@.pc == RAM_BASE,
            r@.stats == (Stats { cycles: 0, stalls: 0, alu_ops: 0, mem_ops: 0 }),
            r@.ifetch is None,
            r@.idecode is None,
            r@.ex is None,
            r@.branch_pc is None,
            r@.ld1 is None,
            r@.ld2 is None,
            r@.mem.subrange(0, bin@.len() as int) == bin@,
            forall|i: int| bin@.len() <= i < RAM_SIZE ==> r@.mem[i] == 0,
    {
        Cv64e40p {
            regfile: new_regfile(),
            pc: RAM_BASE,
            bus: Bus::new(bin),
            stats: Stats::new(),
            ifetch: None,
            idecode: None,
            ex: None,
            branch_pc: None,
            ld_ins1: None,
            ld_ins2: None,
        }
    }

    pub fn regfile(&self) -> (r: &Vec<u64>)
        ensures
            r@ == self@.regs,
    {
        &self.regfile
    }

    pub fn stats(&self) -> (r: Stats)
        ensures
            r == self@.stats,
    {
        self.stats
    }

    fn wr(&mut self) -> (r: Result<(), Exception>)
        requires
            old(self).wf(),
        ensures
            final(self).wf(),
            (final(self)@, r) == spec_wr_stage(old(self)@),
            final(self)@.stats.cycles == old(self)@.stats.cycles,
    {
        proof {
            reveal(spec_wr_stage);
        }
        match self.ex {
            Some((rd, x)) => {
                if rd != 0 {
                    self.regfile.set(rd, x);
                }
                self.ex = None;
            },
            None => {},
        }
        match self.ld_ins2 {
            Some((w, _)) => {
                let rd = crate::isa::rd(w);
                match word_ld(&self.regfile, &self.bus, w) {
                    Ok(v) => {
                        if rd != 0 {
                            self.regfile.set(rd, v);
                        }
                        self.ld_ins2 = None;
                    },
                    Err(e) => {
                        return Err(e);
                    },
                }
            },
            None => {},
        }
        match (self.ld_ins1, self.ld_ins2) {
            (Some(l), None) => {
                self.ld_ins2 = Some(l);
                self.ld_ins1 = None;
            },
            _ => {},
        }
        match self.branch_pc {
            Some(t) => {
                self.pc = t;
                self.idecode = None;
                self.ifetch = None;
                self.branch_pc = None;
            },
            None => {},
        }
        Ok(())
    }

    fn ex(&mut self) -> (r: Result<(), Exception>)
        requires
            old(self).wf(),
        ensures
            final(self).wf(),
            (final(self)@, r) == spec_ex_stage(old(self)@),
            final(self)@.stats.cycles == old(self)@.stats.cycles,
    {
        proof {
            reveal(spec_ex_stage);
        }
        match (self.idecode, self.ex, self.ld_ins1) {
            (Some((w, ipc)), None, None) => {
                if Self::is_jmp(w) {
                    match word_jmp(&self.regfile, ipc, w) {
                        Ok((next, link)) => {
                            self.branch_pc = Some(next);
                            self.ex = Some((crate::isa::rd(w), link));
                            self.idecode = None;
                            Ok(())
                        },
                        Err(e) => Err(e),
                    }
                } else if Self::is_br(w) {
                    match word_br(&self.regfile, ipc, w) {
                        Ok(t) => {
                            self.branch_pc = t;
                            self.idecode = None;
                            Ok(())
                        },
                        Err(e) => Err(e),
                    }
                } else if Self::is_ld(w) {
                    self.ld_ins1 = Some((w, ipc));
                    self.idecode = None;
                    self.stats.mem_ops = ops::wrap_add(self.stats.mem_ops, 1);
                    Ok(())
                } else if Self::is_st(w) {
                    match word_st(&self.regfile, &mut self.bus, w) {
                        Ok(_) => {
                            self.idecode = None;
                            self.stats.mem_ops = ops::wrap_add(self.stats.mem_ops, 1);
                            Ok(())
                        },
                        Err(e) => Err(e),
                    }
                } else {
                    let srcs = word_src_regs(w);
                    let stall = match self.ld_ins2 {
                        Some((lw, _)) => {
                            let ld_rd = crate::isa::rd(lw);
                            let mut found = false;
                            let mut j: usize = 0;
                            while j < srcs.len()
                                invariant
                                    j <= srcs@.len(),
                                    found == exists|t: int| 0 <= t < j && srcs@[t] == ld_rd,
                                decreases srcs@.len() - j,
                            {
                                if srcs[j] == ld_rd {
                                    found = true;
                                }
                                j = j + 1;
                            }
                            proof {
                                assert(found == srcs@.contains(ld_rd));
                            }
                            found
                        },
                        None => false,
                    };
                    if stall {
                        self.stats.stalls = ops::wrap_add(self.stats.stalls, 1);
                        Ok(())
                    } else {
                        match word_alu(&self.regfile, ipc, w) {
                            Ok(v) => {
                                self.ex = Some((crate::isa::rd(w), v));
                                self.idecode = None;
                                self.stats.alu_ops = ops::wrap_add(self.stats.alu_ops, 1);
                                Ok(())
                            },
                            Err(e) => Err(e),
                        }
                    }
                }
            },
            _ => Ok(()),
        }
    }

    fn idecode(&mut self) -> (r: Result<(), Exception>)
        requires
            old(self).wf(),
        ensures
            final(self).wf(),
            final(self)@ == spec_idecode_stage(old(self)@),
            final(self)@.stats.cycles == old(self)@.stats.cycles,
            r is Ok,
    {
        match (self.idecode, self.ifetch) {
            (None, Some(f)) => {
                self.idecode = Some(f);
                self.ifetch = None;
            },
            _ => {},
        }
        Ok(())
    }

    fn ifetch(&mut self) -> (r: Result<(), Exception>)
        requires
            old(self).wf(),
        ensures
            final(self).wf(),
            (final(self)@, r) == spec_ifetch_stage(old(self)@),
            final(self)@.stats.cycles == old(self)@.stats.cycles,
    {
        match self.ifetch {
            None => match self.bus.load(self.pc, Bits { size: 4 }) {
                Ok(w) => {
                    self.ifetch = Some((w as u32, self.pc));
                    Ok(())
                },
                Err(e) => Err(e),
            },
            Some(_) => Ok(()),
        }
    }

    /// Run pipeline cycles until a fatal exception, returned with the
    /// accumulated counters. `Ok` is returned in the (practically
    /// unreachable) case that the cycle counter is exhausted first.
    pub fn execute(&mut self) -> (r: Result<(), Exit>)
        requires
            old(self).wf(),
        ensures
            final(self).wf(),
            r matches Err(e) ==> e.ex.spec_is_fatal() && e.stats == final(self)@.stats,
            exists|n: nat|
                #[trigger] spec_run_p(old(self)@, n) == (final(self)@, match r {
                    Ok(_) => None::<Exception>,
                    Err(e) => Some(e.ex),
                }),
            r is Ok ==> final(self)@.stats.cycles == u64::MAX,
    {
        proof {
            assert(spec_run_p(old(self)@, 0) == (old(self)@, None::<Exception>));
        }
        while self.stats.cycles < u64::MAX
            invariant
                self.wf(),
                exists|k: nat| #[trigger] spec_run_p(old(self)@, k) == (self@, None::<Exception>),
            decreases u64::MAX - self.stats.cycles,
        {
            let ghost prev = self@;
            let ghost k: nat = choose|k: nat|
                #[trigger] spec_run_p(old(self)@, k) == (prev, None::<Exception>);
            proof {
                reveal(spec_cycle_p);
                lemma_run_step_p(old(self)@, k);
            }
            self.stats.cycles = self.stats.cycles + 1;
            match self.wr() {
                Ok(_) => {},
                Err(ex) => {
                    if ex.is_fatal() {
                        proof {
                            assert(spec_run_p(old(self)@, k + 1) == (self@, Some(ex)));
                        }
                        return Err(Exit::from_ex(self.stats, ex));
                    }
                },
            }
            match self.ex() {
                Ok(_) => {},
                Err(ex) => {
                    if ex.is_fatal() {
                        proof {
                            assert(spec_run_p(old(self)@, k + 1) == (self@, Some(ex)));
                        }
                        return Err(Exit::from_ex(self.stats, ex));
                    }
                },
            }
            match self.idecode() {
                Ok(_) => {},
                Err(ex) => {
                    if ex.is_fatal() {
                        return Err(Exit::from_ex(self.stats, ex));
                    }
                },
            }
            match self.ifetch() {
                Ok(_) => {},
                Err(ex) => {
                    if ex.is_fatal() {
                        proof {
                            assert(spec_run_p(old(self)@, k + 1) == (self@, Some(ex)));
                        }
                        return Err(Exit::from_ex(self.stats, ex));
                    }
                },
            }
            self.pc = ops::wrap_add(self.pc, 4);
            proof {
                assert(spec_run_p(old(self)@, k + 1) == (self@, None::<Exception>));
            }
        }
        proof {
            let k = choose|k: nat|
                #[trigger] spec_run_p(old(self)@, k) == (self@, None::<Exception>);
            assert(spec_run_p(old(self)@, k).1 == None::<Exception>);
        }
        Ok(())
    }
}

impl Isa for Cv64e40p {
    open spec fn isa_regs(&self) -> Seq<u64> {
        self@.regs
    }

    open spec fn isa_mem(&self) -> Seq<u8> {
        self@.mem
    }

    open spec fn isa_pc(&self) -> u64 {
        self@.pc
    }

    open spec fn isa_wf(&self) -> bool {
        self.wf()
    }

    proof fn isa_wf_facts(&self) {
    }

    fn opcode(ins: u32) -> (r: u32) {
        crate::isa::opcode(ins)
    }

    fn is_ld(ins: u32) -> (r: bool) {
        crate::isa::opcode(ins) == 0x03
    }

    fn is_st(ins: u32) -> (r: bool) {
        crate::isa::opcode(ins) == 0x23
    }

    fn is_br(ins: u32) -> (r: bool) {
        crate::isa::opcode(ins) == 0x63
    }

    fn is_jmp(ins: u32) -> (r: bool) {
        let opcode = crate::isa::opcode(ins);
        opcode == 0x6f || opcode == 0x67
    }

    fn is_zicsr(ins: u32) -> (r: bool) {
        crate::isa::opcode(ins) == 0x73
    }

    fn is_alu_op(ins: u32) -> (r: bool) {
        let opcode = crate::isa::opcode(ins);
        opcode == 0x13 || opcode == 0x33
    }

    fn rd(ins: u32) -> (r: usize) {
        crate::isa::rd(ins)
    }

    fn rs1(ins: u32) -> (r: usize) {
        crate::isa::rs1(ins)
    }

    fn rs2(ins: u32) -> (r: usize) {
        crate::isa::rs2(ins)
    }

    fn funct3(ins: u32) -> (r: u32) {
        crate::isa::funct3(ins)
    }

    fn funct7(ins: u32) -> (r: u32) {
        crate::isa::funct7(ins)
    }

    fn i_imm(ins: u32) -> (r: u64) {
        crate::isa::i_imm(ins)
    }

    fn s_imm(ins: u32) -> (r: u64) {
        crate::isa::s_imm(ins)
    }

    fn u_imm(ins: u32) -> (r: u64) {
        crate::isa::u_imm(ins)
    }

    fn b_imm(ins: u32) -> (r: u64) {
        crate::isa::b_imm(ins)
    }

    fn j_imm(ins: u32) -> (r: u64) {
        crate::isa::j_imm(ins)
    }

    fn pc(&self) -> (r: u64) {
        self.pc
    }

    fn ureg(&self, reg: usize) -> (r: u64) {
        self.regfile[reg]
    }

    fn ireg(&self, reg: usize) -> (r: i64) {
        let v = self.regfile[reg];
        if v >= 0x8000_0000_0000_0000 {
            -((u64::MAX - v) as i64) - 1
        } else {
            v as i64
        }
    }

    fn src_regs(&self, ins: u32) -> (r: Vec<usize>) {
        word_src_regs(ins)
    }

    fn ld(&self, ins: u32) -> (r: Result<u64, Exception>) {
        word_ld(&self.regfile, &self.bus, ins)
    }

    fn st(&mut self, ins: u32) -> (r: Result<(), Exception>) {
        word_st(&self.regfile, &mut self.bus, ins)
    }

    fn jmp(&self, pc: u64, ins: u32) -> (r: Result<(u64, u64), Exception>) {
        word_jmp(&self.regfile, pc, ins)
    }

    fn br(&self, pc: u64, ins: u32) -> (r: Result<Option<u64>, Exception>) {
        word_br(&self.regfile, pc, ins)
    }

    fn alu(&self, pc: u64, ins: u32) -> (r: Result<u64, Exception>) {
        word_alu(&self.regfile, pc, ins)
    }
}

} // verus!
