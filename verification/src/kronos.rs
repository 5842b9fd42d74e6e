//! An out-of-order cycle-accounting core: unbounded fetch and issue, one
//! functional execution at a time, with loads and stores blocking.
//!
//! Instructions execute functionally exactly as in the plain core, while a
//! history entry per instruction records its register dependencies and
//! whether it blocks (here: loads and stores). When a fatal exception ends
//! the run, the accounting phase replays the history window to reconstruct
//! cycle and stall counts.

use vstd::prelude::*;

use crate::bus::{Bus, RAM_BASE, RAM_SIZE};
use crate::exception::Exception;
use crate::isa::Extension;
use crate::mem::Bits;
use crate::ops;
use crate::ops::spec_wrap_add;
use crate::replay::{
    all_done, all_set, count_undone, entry_fires, fresh_done, intersects, lemma_count_undone_len,
    lemma_pass_monotone, lemma_pass_progress, lemma_replay_bounds, none_done, spec_pass,
    spec_replay, HistEntry,
};
use crate::rv32i::Rv32i;
use crate::rv64i::Rv64i;
use crate::soc::{init_regs, new_regfile};
use crate::stats::Stats;

verus! {

/// What is recorded of each executed instruction: its source registers, its
/// destination register, and whether it serializes the window.
pub struct HistItem {
    pub src_regs: Vec<u64>,
    pub dst_reg: Option<u64>,
    pub blocking: bool,
}

impl View for HistItem {
    type V = HistEntry;

    open spec fn view(&self) -> HistEntry {
        HistEntry {
            src_regs: self.src_regs@,
            src_mem: None,
            dst_reg: self.dst_reg,
            dst_mem: None,
            blocking: self.blocking,
        }
    }
}

/// The architectural state of the core plus its recorded history.
pub struct KronosState {
    pub regs: Seq<u64>,
    pub mem: Seq<u8>,
    pub pc: u64,
    pub stats: Stats,
    pub hist: Seq<HistEntry>,
}

impl KronosState {
    /// A 32-entry register file, full-size RAM, and a history without
    /// memory-address dependencies (this model does not track them).
    pub open spec fn wf(self) -> bool {
        &&& self.regs.len() == 32
        &&& self.mem.len() == RAM_SIZE
        &&& forall|j: int|
            0 <= j < self.hist.len() ==> (#[trigger] self.hist[j]).src_mem is None
                && self.hist[j].dst_mem is None
    }
}

/// The history entry recorded for a decoded instruction: loads and stores
/// are the blocking instructions of this model.
pub open spec fn spec_record<O: Extension>(i: O) -> HistEntry {
    HistEntry {
        src_regs: i.spec_src_regs(),
        src_mem: None,
        dst_reg: i.spec_dst_reg(),
        dst_mem: None,
        blocking: i.spec_is_ld() || i.spec_is_st(),
    }
}

/// Execute one decoded instruction functionally and, on success, append its
/// history entry.
#[verifier::opaque]
pub open spec fn spec_datapath_gen<O: Extension>(s: KronosState, i: O) -> (KronosState, Result<
    (),
    Exception,
>) {
    let record = spec_record(i);
    let i_ex = i.spec_ex(s.regs);
    let stats1 = if i_ex.spec_is_ld() || i_ex.spec_is_st() {
        Stats { mem_ops: spec_wrap_add(s.stats.mem_ops, 1), ..s.stats }
    } else {
        Stats { alu_ops: spec_wrap_add(s.stats.alu_ops, 1), ..s.stats }
    };
    let regs1 = s.regs.update(0, 0u64);
    let eff = i_ex.spec_wr(s.pc, regs1, s.mem);
    match eff.next {
        Ok(npc) => (
            KronosState {
                regs: eff.regs.update(0, 0u64),
                mem: eff.mem,
                pc: npc,
                stats: stats1,
                hist: s.hist.push(record),
            },
            Ok(()),
        ),
        Err(e) => (
            KronosState { regs: eff.regs, mem: eff.mem, pc: s.pc, stats: stats1, hist: s.hist },
            Err(e),
        ),
    }
}

/// Fetch, decode (base family first, then the 64-bit extension) and execute
/// one instruction.
#[verifier::opaque]
pub open spec fn spec_pipeline(s: KronosState) -> (KronosState, Result<(), Exception>) {
    match Bus::spec_load(s.mem, s.pc, 4) {
        Err(e) => (s, Err(e)),
        Ok(w) => {
            let ins = w as u32;
            match Rv32i::spec_id(ins) {
                Ok(i) => spec_datapath_gen(s, i),
                Err(_) => match Rv64i::spec_id(ins) {
                    Ok(i) => spec_datapath_gen(s, i),
                    Err(_) => (s, Err(Exception::IllegalInstruction(ins as u64))),
                },
            }
        },
    }
}

/// One iteration of the execution loop; the second component is the fatal
/// exception that ends the run, if one was raised.
#[verifier::opaque]
pub open spec fn spec_step(s: KronosState) -> (KronosState, Option<Exception>) {
    let (s2, r) = spec_pipeline(s);
    match r {
        Ok(_) => (s2, None),
        Err(e) => if e.spec_is_fatal() {
            (s2, Some(e))
        } else {
            (s2, None)
        },
    }
}

/// The state after at most `n` executed instructions, stopping early at the
/// first fatal exception.
pub open spec fn spec_run(s: KronosState, n: nat) -> (KronosState, Option<Exception>)
    decreases n,
{
    if n == 0 {
        (s, None)
    } else {
        let (s1, r) = spec_step(s);
        match r {
            Some(e) => (s1, Some(e)),
            None => spec_run(s1, (n - 1) as nat),
        }
    }
}

/// The accounting phase applied to a finished run: cycle and stall counts
/// are reconstructed from the history window.
pub open spec fn spec_finalize(s: KronosState) -> KronosState {
    let c = spec_replay(s.hist, fresh_done(s.hist.len())).0;
    let st = spec_replay(s.hist, fresh_done(s.hist.len())).1;
    KronosState { stats: Stats { cycles: c as u64, stalls: st as u64, ..s.stats }, ..s }
}

/// Extending an unfinished run by one instruction runs `spec_step` on its
/// state.
pub proof fn lemma_run_step(s: KronosState, k: nat)
    requires
        spec_run(s, k).1 is None,
    ensures
        spec_run(s, k + 1) == ({
            let (t, _) = spec_run(s, k);
            let (t2, r2) = spec_step(t);
            (t2, r2)
        }),
    decreases k,
{
    let (s1, r) = spec_step(s);
    if k == 0 {
        if r is None {
            assert(spec_run(s1, 0) == (s1, None::<Exception>));
        }
    } else {
        match r {
            Some(_) => {
                assert(spec_run(s, k) == (s1, r));
            },
            None => {
                lemma_run_step(s1, (k - 1) as nat);
            },
        }
    }
}

/// One step preserves well-formedness, keeps register 0 at zero, and grows
/// the history by at most one entry.
pub proof fn lemma_step_wf(s: KronosState)
    requires
        s.wf(),
        s.regs[0] == 0,
    ensures
        spec_step(s).0.wf(),
        spec_step(s).0.regs[0] == 0,
        spec_step(s).0.hist.len() <= s.hist.len() + 1,
{
    reveal(spec_step);
    reveal(spec_pipeline);
    reveal(spec_datapath_gen);
    match Bus::spec_load(s.mem, s.pc, 4) {
        Err(_) => {},
        Ok(w) => {
            let ins = w as u32;
            match Rv32i::spec_id(ins) {
                Ok(i) => {
                    crate::rv32i::lemma_decode_total32(ins);
                    let i_ex = i.spec_ex(s.regs);
                    crate::rv32i::lemma_wr_wf32(i_ex, s.pc, s.regs.update(0, 0u64), s.mem);
                },
                Err(_) => match Rv64i::spec_id(ins) {
                    Ok(i) => {
                        crate::rv64i::lemma_decode_total64(ins);
                        let i_ex = i.spec_ex(s.regs);
                        crate::rv64i::lemma_wr_wf64(i_ex, s.pc, s.regs.update(0, 0u64), s.mem);
                    },
                    Err(_) => {},
                },
            }
        },
    }
}

/// The core executes functionally: one instruction of this model changes
/// registers, memory, program counter, counters and outcome exactly as the
/// plain functional core does; only the recorded history is extra.
pub proof fn lemma_step_matches_functional(s: KronosState)
    ensures
        ({
            let d = crate::dart::DartState { regs: s.regs, mem: s.mem, pc: s.pc, stats: s.stats };
            let (s2, r2) = spec_pipeline(s);
            let (d2, rd2) = crate::dart::spec_pipeline(d);
            &&& s2.regs == d2.regs
            &&& s2.mem == d2.mem
            &&& s2.pc == d2.pc
            &&& s2.stats == d2.stats
            &&& r2 == rd2
        }),
{
    reveal(spec_pipeline);
    reveal(spec_datapath_gen);
    reveal(crate::dart::spec_pipeline);
    reveal(crate::dart::spec_datapath);
}

/// Register 0 reads as zero in every state a run can reach.
pub proof fn lemma_run_zero_register(s: KronosState, n: nat)
    requires
        s.wf(),
        s.regs[0] == 0,
    ensures
        spec_run(s, n).0.wf(),
        spec_run(s, n).0.regs[0] == 0,
    decreases n,
{
    if n > 0 {
        lemma_step_wf(s);
        let (s1, r) = spec_step(s);
        match r {
            Some(_) => {},
            None => {
                lemma_run_zero_register(s1, (n - 1) as nat);
            },
        }
    }
}

/// The out-of-order core with blocking loads and stores.
pub struct KronosSoC {
    pub regs: Vec<u64>,
    pub pc: u64,
    pub bus: Bus,
    pub stats: Stats,
    hist: Vec<HistItem>,
}

impl View for KronosSoC {
    type V = KronosState;

    closed spec fn view(&self) -> KronosState {
        KronosState {
            regs: self.regs@,
            mem: self.bus.mem@,
            pc: self.pc,
            stats: self.stats,
            hist: self.hist@.map_values(|h: HistItem| h@),
        }
    }
}

impl KronosSoC {
    pub open spec fn wf(self) -> bool {
        self@.wf()
    }

    /// A core whose RAM holds `bin` at the base of the window, with an empty
    /// history.
    pub fn new(bin: Vec<u8>) -> (r: KronosSoC)
        requires
            bin@.len() <= RAM_SIZE,
        ensures
            r.wf(),
            r@.regs == init_regs(),
            r@.pc == RAM_BASE,
            r@.stats == (Stats { cycles: 0, stalls: 0, alu_ops: 0, mem_ops: 0 }),
            r@.hist.len() == 0,
            r@.mem.subrange(0, bin@.len() as int) == bin@,
            forall|i: int| bin@.len() <= i < RAM_SIZE ==> r@.mem[i] == 0,
    {
        let regs = new_regfile();
        let pc = RAM_BASE;
        let bus = Bus::new(bin);
        let stats = Stats::new();
        let hist = Vec::new();
        let r = KronosSoC { regs, pc, bus, stats, hist };
        proof {
            assert(r@.hist =~= Seq::<HistEntry>::empty());
        }
        r
    }

    /// Fetch, decode and execute one instruction, recording its history
    /// entry.
    pub fn pipeline(&mut self) -> (r: Result<(), Exception>)
        requires
            old(self).wf(),
        ensures
            final(self).wf(),
            (final(self)@, r) == spec_pipeline(old(self)@),
            final(self)@.stats.cycles == old(self)@.stats.cycles,
            final(self)@.stats.stalls == old(self)@.stats.stalls,
            final(self)@.hist.len() <= old(self)@.hist.len() + 1,
    {
        proof {
            reveal(spec_pipeline);
        }
        match self.bus.load(self.pc, Bits { size: 4 }) {
            Err(e) => Err(e),
            Ok(w) => {
                let ins = w as u32;
                match Rv32i::id(ins) {
                    Ok(i) => self.datapath(i),
                    Err(_) => match Rv64i::id(ins) {
                        Ok(i) => self.datapath(i),
                        Err(_) => Err(Exception::IllegalInstruction(ins as u64)),
                    },
                }
            },
        }
    }

    /// Record the instruction's dependencies, count it, and commit its
    /// effect; the entry joins the history only if the instruction commits.
    pub fn datapath<O: Extension>(&mut self, i: O) -> (r: Result<(), Exception>)
        requires
            old(self).wf(),
            i.srcs_ok(),
            i.dst_ok(),
        ensures
            final(self).wf(),
            (final(self)@, r) == spec_datapath_gen(old(self)@, i),
            final(self)@.stats.cycles == old(self)@.stats.cycles,
            final(self)@.stats.stalls == old(self)@.stats.stalls,
            final(self)@.hist.len() <= old(self)@.hist.len() + 1,
    {
        proof {
            reveal(spec_datapath_gen);
        }
        let ghost old_hist = self@.hist;
        let is_load = i.is_ld();
        let is_store = i.is_st();
        let record = HistItem {
            src_regs: i.src_regs(),
            dst_reg: i.dst_reg(),
            blocking: is_load || is_store,
        };
        proof {
            assert(record@ == spec_record(i));
        }
        let ins_ex = i.ex(&self.regs);
        if ins_ex.is_ld() || ins_ex.is_st() {
            self.stats.mem_ops = ops::wrap_add(self.stats.mem_ops, 1);
        } else {
            self.stats.alu_ops = ops::wrap_add(self.stats.alu_ops, 1);
        }
        self.regs.set(0, 0);
        match ins_ex.wr(self.pc, &mut self.regs, &mut self.bus) {
            Ok(npc) => {
                self.pc = npc;
                self.regs.set(0, 0);
                self.hist.push(record);
                proof {
                    assert(self@.hist =~= old_hist.push(spec_record(i)));
                }
                Ok(())
            },
            Err(e) => Err(e),
        }
    }

    /// The accounting phase: replay the history window, firing every entry
    /// whose source registers are not produced by an earlier unfired entry
    /// and serializing at each blocking entry, until all entries fired.
    pub fn calc_stats(&mut self)
        requires
            old(self).wf(),
            old(self)@.hist.len() < u64::MAX,
        ensures
            final(self).wf(),
            final(self)@ == spec_finalize(old(self)@),
    {
        let ghost h = self@.hist;
        let ghost done0 = fresh_done(h.len());
        let n = self.hist.len();
        let mut executed = none_done(n);
        proof {
            assert(done0.len() == h.len());
            assert(executed@ =~= done0);
            lemma_replay_bounds(h, done0);
            lemma_count_undone_len(done0, 0);
        }
        let mut cycles: u64 = 0;
        let mut stalls: u64 = 0;
        let mut finished = false;
        while !finished
            invariant
                self == old(self),
                self.wf(),
                h == self@.hist,
                n == self.hist@.len(),
                n < u64::MAX,
                executed@.len() == n,
                done0.len() == n,
                spec_replay(h, done0).0 <= n + 1,
                spec_replay(h, done0).1 <= spec_replay(h, done0).0,
                !finished ==> cycles + spec_replay(h, executed@).0 == spec_replay(h, done0).0
                    && stalls + spec_replay(h, executed@).1 == spec_replay(h, done0).1,
                finished ==> cycles == spec_replay(h, done0).0 && stalls == spec_replay(
                    h,
                    done0,
                ).1,
            decreases count_undone(executed@, 0), (if finished {
                0int
            } else {
                1int
            }),
        {
            let ghost done_in = executed@;
            proof {
                lemma_replay_bounds(h, done_in);
                lemma_count_undone_len(done_in, 0);
                assert(spec_replay(h, done_in).0 >= 1);
            }
            cycles = cycles + 1;
            let mut occupied: Vec<u64> = Vec::new();
            let ghost stalls_in = stalls;
            let mut i: usize = 0;
            let mut broke = false;
            while i < n && !broke
                invariant
                    self == old(self),
                    self.wf(),
                    h == self@.hist,
                    n == self.hist@.len(),
                    i <= n,
                    executed@.len() == n,
                    stalls == stalls_in + (if broke {
                        1int
                    } else {
                        0int
                    }),
                    stalls_in + spec_replay(h, done_in).1 == spec_replay(h, done0).1,
                    spec_replay(h, done0).1 <= spec_replay(h, done0).0,
                    spec_replay(h, done0).0 <= n + 1,
                    done_in.len() == n,
                    done0.len() == n,
                    n < u64::MAX,
                    !broke ==> spec_pass(h, done_in, 0, Seq::empty(), Seq::empty()) == spec_pass(
                        h,
                        executed@,
                        i as int,
                        occupied@,
                        Seq::empty(),
                    ),
                    broke ==> spec_pass(h, done_in, 0, Seq::empty(), Seq::empty()) == (
                        executed@,
                        1nat,
                    ),
                decreases n - i, (if broke {
                    0int
                } else {
                    1int
                }),
            {
                let ghost done_pre = executed@;
                let ghost occ_pre = occupied@;
                if !executed[i] {
                    proof {
                        assert(h[i as int] == self.hist@[i as int]@);
                    }
                    let fires = !intersects(&self.hist[i].src_regs, &occupied);
                    proof {
                        assert(fires == entry_fires(h[i as int], occupied@, Seq::empty()));
                    }
                    if fires {
                        executed.set(i, true);
                    }
                    match self.hist[i].dst_reg {
                        Some(d) => {
                            occupied.push(d);
                        },
                        None => {},
                    }
                    if self.hist[i].blocking {
                        proof {
                            assert(spec_pass(h, done_pre, i as int, occ_pre, Seq::empty()) == (
                                executed@,
                                1nat,
                            ));
                            assert(spec_pass(h, done_in, 0, Seq::empty(), Seq::empty()) == (
                                executed@,
                                1nat,
                            ));
                            assert(spec_replay(h, done_in).1 >= 1);
                        }
                        stalls = stalls + 1;
                        broke = true;
                    } else {
                        proof {
                            assert(crate::replay::push_opt(occ_pre, h[i as int].dst_reg)
                                =~= occupied@);
                            assert(crate::replay::push_opt(
                                Seq::empty(),
                                h[i as int].dst_mem,
                            ) =~= Seq::<u64>::empty());
                            assert(spec_pass(h, done_pre, i as int, occ_pre, Seq::empty())
                                == spec_pass(h, executed@, i + 1, occupied@, Seq::empty()));
                        }
                    }
                }
                if !broke {
                    i = i + 1;
                }
            }
            let ghost pass_res = spec_pass(h, done_in, 0, Seq::empty(), Seq::empty());
            proof {
                lemma_pass_monotone(h, done_in, 0, Seq::empty(), Seq::empty());
                assert(pass_res.0 == executed@);
                if broke {
                    assert(pass_res.1 == 1);
                } else {
                    assert(pass_res.1 == 0);
                    assert(stalls == stalls_in);
                }
            }
            if all_set(&executed) {
                finished = true;
                proof {
                    crate::replay::lemma_count_undone_le(done_in, executed@, 0);
                    assert(spec_replay(h, done_in) == (1nat, pass_res.1));
                }
            } else {
                proof {
                    assert(!all_done(executed@));
                    if all_done(done_in) {
                        assert(forall|j: int| 0 <= j < executed@.len() ==> executed@[j]);
                    }
                    assert(!all_done(done_in));
                    lemma_pass_progress(h, done_in);
                    assert(spec_replay(h, done_in) == (
                        (spec_replay(h, executed@).0 + 1) as nat,
                        (pass_res.1 + spec_replay(h, executed@).1) as nat,
                    ));
                }
            }
        }
        self.stats.cycles = cycles;
        self.stats.stalls = stalls;
    }

    /// Run instructions until a fatal exception; then reconstruct cycles and
    /// stalls from the history and return the exception. `None` is returned
    /// in the (practically unreachable) case that the step budget runs out,
    /// with the counters left unfinalized.
    pub fn execute(&mut self) -> (r: Option<Exception>)
        requires
            old(self).wf(),
            old(self)@.hist.len() == 0,
        ensures
            final(self).wf(),
            r matches Some(e) ==> e.spec_is_fatal(),
            exists|n: nat|
                #[trigger] spec_run(old(self)@, n).1 == r && final(self)@ == (match r {
                    Some(_) => spec_finalize(spec_run(old(self)@, n).0),
                    None => spec_run(old(self)@, n).0,
                }),
            r is None ==> final(self)@ == spec_run(old(self)@, (u64::MAX - 1) as nat).0
                && spec_run(old(self)@, (u64::MAX - 1) as nat).1 is None,
    {
        proof {
            assert(spec_run(old(self)@, 0) == (old(self)@, None::<Exception>));
        }
        let mut steps: u64 = 0;
        while steps < u64::MAX - 1
            invariant
                self.wf(),
                self@.hist.len() <= steps,
                steps <= u64::MAX - 1,
                spec_run(old(self)@, steps as nat) == (self@, None::<Exception>),
            decreases u64::MAX - steps,
        {
            let ghost k: nat = steps as nat;
            steps = steps + 1;
            let r = self.pipeline();
            proof {
                reveal(spec_step);
                lemma_run_step(old(self)@, k);
            }
            match r {
                Ok(_) => {
                    proof {
                        assert(spec_run(old(self)@, k + 1) == (self@, None::<Exception>));
                    }
                },
                Err(ex) => {
                    if ex.is_fatal() {
                        let ghost t = self@;
                        proof {
                            assert(spec_run(old(self)@, k + 1) == (t, Some(ex)));
                        }
                        self.calc_stats();
                        proof {
                            assert(spec_run(old(self)@, k + 1).1 == Some(ex));
                            assert(self@ == spec_finalize(t));
                        }
                        return Some(ex);
                    }
                    proof {
                        assert(spec_run(old(self)@, k + 1) == (self@, None::<Exception>));
                    }
                },
            }
        }
        proof {
            assert(spec_run(old(self)@, (u64::MAX - 1) as nat) == (self@, None::<Exception>));
        }
        None
    }
}

} // verus!
