//! The 64-bit in-order pipelined system: a thin shell around the pipelined
//! core.

use vstd::prelude::*;

use crate::bus::RAM_SIZE;
use crate::cv64e40p::{spec_run_p, Cv64e40p, PipeState};
use crate::exception::Exception;
use crate::soc::Exit;
use crate::stats::Stats;

verus! {

pub struct Zeus64 {
    soc: Cv64e40p,
}

impl View for Zeus64 {
    type V = PipeState;

    closed spec fn view(&self) -> PipeState {
        self.soc@
    }
}

impl Zeus64 {
    pub open spec fn wf(self) -> bool {
        self@.wf()
    }

    pub fn new(bin: Vec<u8>) -> (r: Zeus64)
        requires
            bin@.len() <= RAM_SIZE,
        ensures
            r.wf(),
            r@.regs == crate::soc::init_regs(),
            r@.pc == crate::bus::RAM_BASE,
            r@.stats == (Stats { cycles: 0, stalls: 0, alu_ops: 0, mem_ops: 0 }),
            r@.ifetch is None,
            r@.idecode is None,
            r@.ex is None,
            r@.branch_pc is None,
            r@.ld1 is None,
            r@.ld2 is None,
            r@.mem.subrange(0, bin@.len() as int) == bin@,
            forall|i: int| bin@.len() <= i < RAM_SIZE ==> r@.mem[i] == 0,
    {
        Zeus64 { soc: Cv64e40p::new(bin) }
    }

    pub fn pc(&self) -> (r: u64)
        ensures
            r == self@.pc,
    {
        crate::soc::Isa::pc(&self.soc)
    }

    pub fn regfile(&self) -> (r: &Vec<u64>)
        ensures
            r@ == self@.regs,
    {
        self.soc.regfile()
    }

    pub fn stats(&self) -> (r: Stats)
        ensures
            r == self@.stats,
    {
        self.soc.stats()
    }

    /// Run the pipelined core to its first fatal exception.
    pub fn execute(&mut self) -> (r: Result<(), Exit>)
        requires
            old(self).wf(),
        ensures
            final(self).wf(),
            r matches Err(e) ==> e.ex.spec_is_fatal() && e.stats == final(self)@.stats,
            exists|n: nat|
                #[trigger] spec_run_p(old(self)@, n) == (final(self)@, match r {
                    Ok(_) => None::<Exception>,
                    Err(e) => Some(e.ex),
                }),
            r is Ok ==> final(self)@.stats.cycles == u64::MAX,
    {
        self.soc.execute()
    }
}

} // verus!
