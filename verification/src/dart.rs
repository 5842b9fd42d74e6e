//! The plain functional core: fetch, decode, execute, one instruction per
//! cycle.
//!
//! Each cycle fetches the word at the program counter, decodes it against
//! the base family and then the 64-bit extension family, and commits the
//! instruction's full effect. Register 0 is re-zeroed around every commit.
//! Execution stops at the first fatal exception.

use vstd::prelude::*;

use crate::bus::{Bus, RAM_BASE, RAM_SIZE};
use crate::exception::Exception;
use crate::isa::Extension;
use crate::mem::Bits;
use crate::ops;
use crate::ops::spec_wrap_add;
use crate::rv32i::Rv32i;
use crate::rv64i::Rv64i;
use crate::soc::{init_regs, new_regfile};
use crate::stats::Stats;

verus! {

/// The architectural state of the functional core, as one mathematical
/// value: register file, RAM contents, program counter and counters.
pub struct DartState {
    pub regs: Seq<u64>,
    pub mem: Seq<u8>,
    pub pc: u64,
    pub stats: Stats,
}

impl DartState {
    /// A 32-entry register file and a full-size RAM.
    pub open spec fn wf(self) -> bool {
        self.regs.len() == 32 && self.mem.len() == RAM_SIZE
    }
}

/// Execute one decoded instruction: count it, re-zero register 0, commit its
/// effect, and re-zero register 0 again. On an exception the program counter
/// is left in place and the trailing re-zero does not happen.
#[verifier::opaque]
pub open spec fn spec_datapath<O: Extension>(s: DartState, i: O) -> (DartState, Result<
    (),
    Exception,
>) {
    let i_ex = i.spec_ex(s.regs);
    let stats1 = if i_ex.spec_is_ld() || i_ex.spec_is_st() {
        Stats { mem_ops: spec_wrap_add(s.stats.mem_ops, 1), ..s.stats }
    } else {
        Stats { alu_ops: spec_wrap_add(s.stats.alu_ops, 1), ..s.stats }
    };
    let regs1 = s.regs.update(0, 0u64);
    let eff = i_ex.spec_wr(s.pc, regs1, s.mem);
    match eff.next {
        Ok(npc) => (
            DartState { regs: eff.regs.update(0, 0u64), mem: eff.mem, pc: npc, stats: stats1 },
            Ok(()),
        ),
        Err(e) => (DartState { regs: eff.regs, mem: eff.mem, pc: s.pc, stats: stats1 }, Err(e)),
    }
}

/// Fetch the word at the program counter, decode it (base family first,
/// then the 64-bit extension), and execute it.
#[verifier::opaque]
pub open spec fn spec_pipeline(s: DartState) -> (DartState, Result<(), Exception>) {
    match Bus::spec_load(s.mem, s.pc, 4) {
        Err(e) => (s, Err(e)),
        Ok(w) => {
            let ins = w as u32;
            match Rv32i::spec_id(ins) {
                Ok(i) => spec_datapath(s, i),
                Err(_) => match Rv64i::spec_id(ins) {
                    Ok(i) => spec_datapath(s, i),
                    Err(_) => (s, Err(Exception::IllegalInstruction(ins as u64))),
                },
            }
        },
    }
}

/// One cycle of the execution loop: count it and run the pipeline once. The
/// second component is the fatal exception that stops the run, if one was
/// raised.
#[verifier::opaque]
pub open spec fn spec_cycle(s: DartState) -> (DartState, Option<Exception>) {
    let s1 = DartState {
        stats: Stats { cycles: spec_wrap_add(s.stats.cycles, 1), ..s.stats },
        ..s
    };
    let (s2, r) = spec_pipeline(s1);
    match r {
        Ok(_) => (s2, None),
        Err(e) => if e.spec_is_fatal() {
            (s2, Some(e))
        } else {
            (s2, None)
        },
    }
}

/// The state after at most `n` cycles, stopping early at the first fatal
/// exception (returned as the second component).
pub open spec fn spec_run(s: DartState, n: nat) -> (DartState, Option<Exception>)
    decreases n,
{
    if n == 0 {
        (s, None)
    } else {
        let (s1, r) = spec_cycle(s);
        match r {
            Some(e) => (s1, Some(e)),
            None => spec_run(s1, (n - 1) as nat),
        }
    }
}

/// Extending an unfinished run by one cycle runs `spec_cycle` on its state.
pub proof fn lemma_run_step(s: DartState, k: nat)
    requires
        spec_run(s, k).1 is None,
    ensures
        spec_run(s, k + 1) == ({
            let (t, _) = spec_run(s, k);
            let (t2, r2) = spec_cycle(t);
            (t2, r2)
        }),
    decreases k,
{
    let (s1, r) = spec_cycle(s);
    if k == 0 {
        if r is None {
            assert(spec_run(s1, 0) == (s1, None::<Exception>));
        }
    } else {
        match r {
            Some(_) => {
                assert(spec_run(s, k) == (s1, r));
            },
            None => {
                lemma_run_step(s1, (k - 1) as nat);
            },
        }
    }
}

/// One cycle preserves well-formedness and keeps register 0 at zero.
pub proof fn lemma_cycle_wf(s: DartState)
    requires
        s.wf(),
        s.regs[0] == 0,
    ensures
        spec_cycle(s).0.wf(),
        spec_cycle(s).0.regs[0] == 0,
{
    reveal(spec_cycle);
    reveal(spec_pipeline);
    reveal(spec_datapath);
    let s1 = DartState {
        stats: Stats { cycles: spec_wrap_add(s.stats.cycles, 1), ..s.stats },
        ..s
    };
    match Bus::spec_load(s1.mem, s1.pc, 4) {
        Err(_) => {},
        Ok(w) => {
            let ins = w as u32;
            match Rv32i::spec_id(ins) {
                Ok(i) => {
                    crate::rv32i::lemma_decode_total32(ins);
                    let i_ex = i.spec_ex(s1.regs);
                    crate::rv32i::lemma_wr_wf32(i_ex, s1.pc, s1.regs.update(0, 0u64), s1.mem);
                },
                Err(_) => match Rv64i::spec_id(ins) {
                    Ok(i) => {
                        crate::rv64i::lemma_decode_total64(ins);
                        let i_ex = i.spec_ex(s1.regs);
                        crate::rv64i::lemma_wr_wf64(i_ex, s1.pc, s1.regs.update(0, 0u64), s1.mem);
                    },
                    Err(_) => {},
                },
            }
        },
    }
}

/// One datapath step of a base-family instruction keeps register 0 at
/// zero, whether the instruction commits or faults: register 0 is re-zeroed
/// before the write step, and a faulting write leaves the register file as
/// it was.
pub proof fn lemma_datapath_zero_register32(s: DartState, i: Rv32i)
    requires
        s.wf(),
        s.regs[0] == 0,
        i.dst_ok(),
    ensures
        spec_datapath(s, i).0.regs[0] == 0,
{
    reveal(spec_datapath);
    let i_ex = i.spec_ex(s.regs);
    crate::rv32i::lemma_wr_wf32(i_ex, s.pc, s.regs.update(0, 0u64), s.mem);
}

/// `lemma_datapath_zero_register32` for the 64-bit extension family.
pub proof fn lemma_datapath_zero_register64(s: DartState, i: Rv64i)
    requires
        s.wf(),
        s.regs[0] == 0,
        i.dst_ok(),
    ensures
        spec_datapath(s, i).0.regs[0] == 0,
{
    reveal(spec_datapath);
    let i_ex = i.spec_ex(s.regs);
    crate::rv64i::lemma_wr_wf64(i_ex, s.pc, s.regs.update(0, 0u64), s.mem);
}

/// A base-family instruction that names register 0 as its destination
/// disturbs nothing: after the step the register file and the memory are
/// exactly as before, and only an operation counter moved.
pub proof fn lemma_datapath_zero_dst_discard32(s: DartState, i: Rv32i)
    requires
        s.wf(),
        s.regs[0] == 0,
        i.spec_dst_reg() == Some(0u64),
    ensures
        ({
            let (s2, r) = spec_datapath(s, i);
            &&& s2.regs == s.regs
            &&& s2.mem == s.mem
            &&& s2.stats.cycles == s.stats.cycles
            &&& s2.stats.stalls == s.stats.stalls
            &&& (s2.stats.alu_ops == spec_wrap_add(s.stats.alu_ops, 1) && s2.stats.mem_ops
                == s.stats.mem_ops) || (s2.stats.mem_ops == spec_wrap_add(s.stats.mem_ops, 1)
                && s2.stats.alu_ops == s.stats.alu_ops)
        }),
{
    reveal(spec_datapath);
    let i_ex = i.spec_ex(s.regs);
    let regs1 = s.regs.update(0, 0u64);
    assert(regs1 =~= s.regs);
    crate::rv32i::lemma_zero_dst_discard32(i_ex, s.pc, regs1, s.mem);
    crate::rv32i::lemma_wr_wf32(i_ex, s.pc, regs1, s.mem);
    let eff = i_ex.spec_wr(s.pc, regs1, s.mem);
    match eff.next {
        Ok(_) => {
            assert(eff.regs.update(0, 0u64) == s.regs);
        },
        Err(_) => {
            assert(eff.regs == s.regs);
        },
    }
}

/// `lemma_datapath_zero_dst_discard32` for the 64-bit extension family.
pub proof fn lemma_datapath_zero_dst_discard64(s: DartState, i: Rv64i)
    requires
        s.wf(),
        s.regs[0] == 0,
        i.spec_dst_reg() == Some(0u64),
    ensures
        ({
            let (s2, r) = spec_datapath(s, i);
            &&& s2.regs == s.regs
            &&& s2.mem == s.mem
            &&& s2.stats.cycles == s.stats.cycles
            &&& s2.stats.stalls == s.stats.stalls
            &&& (s2.stats.alu_ops == spec_wrap_add(s.stats.alu_ops, 1) && s2.stats.mem_ops
                == s.stats.mem_ops) || (s2.stats.mem_ops == spec_wrap_add(s.stats.mem_ops, 1)
                && s2.stats.alu_ops == s.stats.alu_ops)
        }),
{
    reveal(spec_datapath);
    let i_ex = i.spec_ex(s.regs);
    let regs1 = s.regs.update(0, 0u64);
    assert(regs1 =~= s.regs);
    crate::rv64i::lemma_zero_dst_discard64(i_ex, s.pc, regs1, s.mem);
    crate::rv64i::lemma_wr_wf64(i_ex, s.pc, regs1, s.mem);
    let eff = i_ex.spec_wr(s.pc, regs1, s.mem);
    match eff.next {
        Ok(_) => {
            assert(eff.regs.update(0, 0u64) == s.regs);
        },
        Err(_) => {
            assert(eff.regs == s.regs);
        },
    }
}

/// Register 0 reads as zero in every state a run can reach.
pub proof fn lemma_run_zero_register(s: DartState, n: nat)
    requires
        s.wf(),
        s.regs[0] == 0,
    ensures
        spec_run(s, n).0.wf(),
        spec_run(s, n).0.regs[0] == 0,
    decreases n,
{
    if n > 0 {
        lemma_cycle_wf(s);
        let (s1, r) = spec_cycle(s);
        match r {
            Some(_) => {},
            None => {
                lemma_run_zero_register(s1, (n - 1) as nat);
            },
        }
    }
}

/// The simple functional core.
pub struct DartSoC {
    pub regs: Vec<u64>,
    pub pc: u64,
    pub bus: Bus,
    pub stats: Stats,
}

impl View for DartSoC {
    type V = DartState;

    open spec fn view(&self) -> DartState {
        DartState { regs: self.regs@, mem: self.bus.mem@, pc: self.pc, stats: self.stats }
    }
}

impl DartSoC {
    pub open spec fn wf(self) -> bool {
        self@.wf()
    }

    /// A core whose RAM holds `bin` at the base of the window, with the
    /// program counter at `RAM_BASE` and the stack pointer at the top of RAM.
    pub fn new(bin: Vec<u8>) -> (r: DartSoC)
        requires
            bin@.len() <= RAM_SIZE,
        ensures
            r.wf(),
            r@.regs == init_regs(),
            r@.pc == RAM_BASE,
            r@.stats == (Stats { cycles: 0, stalls: 0, alu_ops: 0, mem_ops: 0 }),
            r@.mem.subrange(0, bin@.len() as int) == bin@,
            forall|i: int| bin@.len() <= i < RAM_SIZE ==> r@.mem[i] == 0,
    {
        let regs = new_regfile();
        let pc = RAM_BASE;
        let bus = Bus::new(bin);
        let stats = Stats::new();
        DartSoC { regs, pc, bus, stats }
    }

    /// Fetch, decode and execute one instruction.
    pub fn pipeline(&mut self) -> (r: Result<(), Exception>)
        requires
            old(self).wf(),
        ensures
            final(self).wf(),
            (final(self)@, r) == spec_pipeline(old(self)@),
            final(self)@.stats.cycles == old(self)@.stats.cycles,
            final(self)@.stats.stalls == old(self)@.stats.stalls,
    {
        proof {
            reveal(spec_pipeline);
            lemma_pipeline_wf(old(self)@);
        }
        match self.bus.load(self.pc, Bits { size: 4 }) {
            Err(e) => Err(e),
            Ok(w) => {
                let ins = w as u32;
                match Rv32i::id(ins) {
                    Ok(i) => self.datapath(i),
                    Err(_) => match Rv64i::id(ins) {
                        Ok(i) => self.datapath(i),
                        Err(_) => Err(Exception::IllegalInstruction(ins as u64)),
                    },
                }
            },
        }
    }

    /// Count the instruction, re-zero register 0, commit the instruction's
    /// effect, and re-zero register 0 again.
    pub fn datapath<O: Extension>(&mut self, i: O) -> (r: Result<(), Exception>)
        requires
            old(self).wf(),
            i.srcs_ok(),
            i.dst_ok(),
        ensures
            final(self)@.regs.len() == 32,
            final(self).bus.wf(),
            (final(self)@, r) == spec_datapath(old(self)@, i),
            final(self)@.stats.cycles == old(self)@.stats.cycles,
            final(self)@.stats.stalls == old(self)@.stats.stalls,
    {
        proof {
            reveal(spec_datapath);
        }
        let ins_ex = i.ex(&self.regs);
        if ins_ex.is_ld() || ins_ex.is_st() {
            self.stats.mem_ops = ops::wrap_add(self.stats.mem_ops, 1);
        } else {
            self.stats.alu_ops = ops::wrap_add(self.stats.alu_ops, 1);
        }
        self.regs.set(0, 0);
        match ins_ex.wr(self.pc, &mut self.regs, &mut self.bus) {
            Ok(npc) => {
                self.pc = npc;
                self.regs.set(0, 0);
                Ok(())
            },
            Err(e) => Err(e),
        }
    }

    /// Run the pipeline until a fatal exception, which is returned. `None`
    /// is returned in the (practically unreachable) case that the cycle
    /// counter is exhausted first.
    pub fn execute(&mut self) -> (r: Option<Exception>)
        requires
            old(self).wf(),
        ensures
            final(self).wf(),
            exists|n: nat| #[trigger] spec_run(old(self)@, n) == (final(self)@, r),
            r matches Some(e) ==> e.spec_is_fatal(),
            r is None ==> final(self)@.stats.cycles == u64::MAX,
    {
        proof {
            assert(spec_run(old(self)@, 0) == (old(self)@, None::<Exception>));
        }
        while self.stats.cycles < u64::MAX
            invariant
                self.wf(),
                exists|k: nat| #[trigger] spec_run(old(self)@, k) == (self@, None::<Exception>),
            decreases u64::MAX - self.stats.cycles,
        {
            let ghost prev = self@;
            let ghost k: nat = choose|k: nat|
                #[trigger] spec_run(old(self)@, k) == (prev, None::<Exception>);
            self.stats.cycles = self.stats.cycles + 1;
            let r = self.pipeline();
            proof {
                reveal(spec_cycle);
                lemma_run_step(old(self)@, k);
                assert(spec_wrap_add(prev.stats.cycles, 1) == prev.stats.cycles + 1);
            }
            match r {
                Ok(_) => {
                    proof {
                        assert(spec_run(old(self)@, k + 1) == (self@, None::<Exception>));
                    }
                },
                Err(ex) => {
                    if ex.is_fatal() {
                        proof {
                            assert(spec_run(old(self)@, k + 1) == (self@, Some(ex)));
                        }
                        return Some(ex);
                    }
                    proof {
                        assert(spec_run(old(self)@, k + 1) == (self@, None::<Exception>));
                    }
                },
            }
        }
        None
    }
}

/// The pipeline preserves well-formedness.
pub proof fn lemma_pipeline_wf(s: DartState)
    requires
        s.wf(),
    ensures
        spec_pipeline(s).0.wf(),
{
    reveal(spec_pipeline);
    reveal(spec_datapath);
    match Bus::spec_load(s.mem, s.pc, 4) {
        Err(_) => {},
        Ok(w) => {
            let ins = w as u32;
            match Rv32i::spec_id(ins) {
                Ok(i) => {
                    crate::rv32i::lemma_decode_total32(ins);
                    let i_ex = i.spec_ex(s.regs);
                    crate::rv32i::lemma_wr_wf32(i_ex, s.pc, s.regs.update(0, 0u64), s.mem);
                },
                Err(_) => match Rv64i::spec_id(ins) {
                    Ok(i) => {
                        crate::rv64i::lemma_decode_total64(ins);
                        let i_ex = i.spec_ex(s.regs);
                        crate::rv64i::lemma_wr_wf64(i_ex, s.pc, s.regs.update(0, 0u64), s.mem);
                    },
                    Err(_) => {},
                },
            }
        },
    }
}

} // verus!
