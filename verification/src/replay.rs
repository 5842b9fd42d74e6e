//! The dependency-window replay shared by the out-of-order cores.
//!
//! Execution first runs functionally, recording for each instruction its
//! source registers, destination register, memory addresses and whether it
//! is *blocking*. The accounting phase then replays the history: each cycle
//! walks the entries in program order, fires every entry whose sources are
//! not produced by an earlier unfired entry, adds each visited entry's
//! destinations to the occupied sets whether or not it fired, and stops the
//! cycle at the first blocking entry (counting one stall). The cycle count
//! is the number of such passes until every entry has fired.

use vstd::prelude::*;

verus! {

/// What the accounting phase knows of one executed instruction.
pub struct HistEntry {
    pub src_regs: Seq<u64>,
    pub src_mem: Option<u64>,
    pub dst_reg: Option<u64>,
    pub dst_mem: Option<u64>,
    pub blocking: bool,
}

/// No source register is occupied.
pub open spec fn regs_available(srcs: Seq<u64>, occ: Seq<u64>) -> bool {
    forall|j: int| 0 <= j < srcs.len() ==> !occ.contains(#[trigger] srcs[j])
}

/// The source address, if any, is not occupied.
pub open spec fn mem_available(src: Option<u64>, occ: Seq<u64>) -> bool {
    match src {
        Some(a) => !occ.contains(a),
        None => true,
    }
}

/// Whether an entry can fire against the current occupied sets.
pub open spec fn entry_fires(e: HistEntry, occ_regs: Seq<u64>, occ_addrs: Seq<u64>) -> bool {
    regs_available(e.src_regs, occ_regs) && mem_available(e.src_mem, occ_addrs)
}

pub open spec fn push_opt(occ: Seq<u64>, v: Option<u64>) -> Seq<u64> {
    match v {
        Some(x) => occ.push(x),
        None => occ,
    }
}

/// One accounting cycle, from entry `i` on: fire what is available, occupy
/// destinations, stop at the first blocking entry visited (one stall).
/// Returns the fired set and the stalls added (0 or 1).
pub open spec fn spec_pass(
    hist: Seq<HistEntry>,
    done: Seq<bool>,
    i: int,
    occ_regs: Seq<u64>,
    occ_addrs: Seq<u64>,
) -> (Seq<bool>, nat)
    decreases hist.len() - i,
{
    if i < 0 || i >= hist.len() {
        (done, 0)
    } else if done[i] {
        spec_pass(hist, done, i + 1, occ_regs, occ_addrs)
    } else {
        let e = hist[i];
        let done1 = if entry_fires(e, occ_regs, occ_addrs) {
            done.update(i, true)
        } else {
            done
        };
        if e.blocking {
            (done1, 1)
        } else {
            spec_pass(hist, done1, i + 1, push_opt(occ_regs, e.dst_reg), push_opt(occ_addrs, e.dst_mem))
        }
    }
}

/// A fired-set of `n` entries, none fired yet.
pub open spec fn fresh_done(n: nat) -> Seq<bool> {
    Seq::new(n, |i: int| false)
}

pub open spec fn all_done(done: Seq<bool>) -> bool {
    forall|j: int| 0 <= j < done.len() ==> done[j]
}

/// The number of entries from `i` on that have not fired yet.
pub open spec fn count_undone(done: Seq<bool>, i: int) -> nat
    decreases done.len() - i,
{
    if i < 0 || i >= done.len() {
        0
    } else if done[i] {
        count_undone(done, i + 1)
    } else {
        count_undone(done, i + 1) + 1
    }
}

/// The index of the first entry from `i` on that has not fired, or the
/// length if all have.
pub open spec fn first_undone(done: Seq<bool>, i: int) -> int
    decreases done.len() - i,
{
    if i < 0 || i >= done.len() {
        done.len() as int
    } else if !done[i] {
        i
    } else {
        first_undone(done, i + 1)
    }
}

pub proof fn lemma_first_undone(done: Seq<bool>, i: int)
    requires
        0 <= i <= done.len(),
    ensures
        i <= first_undone(done, i) <= done.len(),
        first_undone(done, i) < done.len() ==> !done[first_undone(done, i)],
        forall|j: int| i <= j < first_undone(done, i) ==> done[j],
    decreases done.len() - i,
{
    if i < done.len() && done[i] {
        lemma_first_undone(done, i + 1);
    }
}

/// A pass keeps the length of the fired set and never un-fires an entry.
pub proof fn lemma_pass_monotone(
    hist: Seq<HistEntry>,
    done: Seq<bool>,
    i: int,
    occ_regs: Seq<u64>,
    occ_addrs: Seq<u64>,
)
    requires
        done.len() == hist.len(),
    ensures
        ({
            let (d1, st) = spec_pass(hist, done, i, occ_regs, occ_addrs);
            &&& d1.len() == done.len()
            &&& forall|j: int| 0 <= j < done.len() && done[j] ==> d1[j]
            &&& st <= 1
        }),
    decreases hist.len() - i,
{
    if 0 <= i < hist.len() {
        if done[i] {
            lemma_pass_monotone(hist, done, i + 1, occ_regs, occ_addrs);
        } else {
            let e = hist[i];
            let done1 = if entry_fires(e, occ_regs, occ_addrs) {
                done.update(i, true)
            } else {
                done
            };
            if !e.blocking {
                lemma_pass_monotone(
                    hist,
                    done1,
                    i + 1,
                    push_opt(occ_regs, e.dst_reg),
                    push_opt(occ_addrs, e.dst_mem),
                );
            }
        }
    }
}

/// A pass started with empty occupied sets fires the first unfired entry:
/// every entry before it is already fired and adds nothing to the sets.
pub proof fn lemma_pass_first_fires(hist: Seq<HistEntry>, done: Seq<bool>, i: int, f: int)
    requires
        done.len() == hist.len(),
        0 <= i <= f < hist.len(),
        !done[f],
        forall|j: int| i <= j < f ==> done[j],
    ensures
        spec_pass(hist, done, i, Seq::empty(), Seq::empty()).0[f],
    decreases f - i,
{
    if i < f {
        lemma_pass_first_fires(hist, done, i + 1, f);
    } else {
        let e = hist[i];
        assert(entry_fires(e, Seq::empty(), Seq::empty()));
        let done1 = done.update(i, true);
        if !e.blocking {
            lemma_pass_monotone(
                hist,
                done1,
                i + 1,
                push_opt(Seq::empty(), e.dst_reg),
                push_opt(Seq::empty(), e.dst_mem),
            );
        }
    }
}

/// Firing more entries leaves no more undone.
pub proof fn lemma_count_undone_le(done: Seq<bool>, d1: Seq<bool>, i: int)
    requires
        done.len() == d1.len(),
        forall|j: int| 0 <= j < done.len() && done[j] ==> d1[j],
    ensures
        count_undone(d1, i) <= count_undone(done, i),
    decreases done.len() - i,
{
    if 0 <= i < done.len() {
        lemma_count_undone_le(done, d1, i + 1);
    }
}

/// Firing a previously unfired entry strictly shrinks the undone count.
pub proof fn lemma_count_undone_lt(done: Seq<bool>, d1: Seq<bool>, i: int, f: int)
    requires
        done.len() == d1.len(),
        forall|j: int| 0 <= j < done.len() && done[j] ==> d1[j],
        i <= f < done.len(),
        0 <= i,
        !done[f],
        d1[f],
    ensures
        count_undone(d1, i) < count_undone(done, i),
    decreases done.len() - i,
{
    if i < f {
        lemma_count_undone_lt(done, d1, i + 1, f);
    } else {
        lemma_count_undone_le(done, d1, i + 1);
    }
}

/// A pass with empty occupied sets over a not-yet-finished history strictly
/// shrinks the undone count.
pub proof fn lemma_pass_progress(hist: Seq<HistEntry>, done: Seq<bool>)
    requires
        done.len() == hist.len(),
        !all_done(done),
    ensures
        ({
            let (d1, st) = spec_pass(hist, done, 0, Seq::empty(), Seq::empty());
            count_undone(d1, 0) < count_undone(done, 0)
        }),
{
    let f = first_undone(done, 0);
    lemma_first_undone(done, 0);
    assert(f < done.len()) by {
        if f == done.len() {
            assert(all_done(done));
        }
    }
    lemma_pass_first_fires(hist, done, 0, f);
    lemma_pass_monotone(hist, done, 0, Seq::empty(), Seq::empty());
    let (d1, st) = spec_pass(hist, done, 0, Seq::empty(), Seq::empty());
    lemma_count_undone_lt(done, d1, 0, f);
}

/// The accounting result: cycle and stall counts of the greedy replay. Each
/// recursive step is one cycle; the run ends when every entry has fired.
pub open spec fn spec_replay(hist: Seq<HistEntry>, done: Seq<bool>) -> (nat, nat)
    decreases count_undone(done, 0),
    when done.len() == hist.len()
    via spec_replay_decreases
{
    let (done1, st) = spec_pass(hist, done, 0, Seq::empty(), Seq::empty());
    if all_done(done1) {
        (1nat, st)
    } else {
        let (c, s) = spec_replay(hist, done1);
        ((c + 1) as nat, (st + s) as nat)
    }
}

#[via_fn]
proof fn spec_replay_decreases(hist: Seq<HistEntry>, done: Seq<bool>) {
    let (done1, st) = spec_pass(hist, done, 0, Seq::empty(), Seq::empty());
    if !all_done(done1) {
        lemma_pass_monotone(hist, done, 0, Seq::empty(), Seq::empty());
        if all_done(done) {
            assert(forall|j: int| 0 <= j < done1.len() ==> done1[j]);
        } else {
            lemma_pass_progress(hist, done);
        }
    }
}

/// The replay takes at most one cycle more than there are unfired entries,
/// and no more stalls than cycles.
pub proof fn lemma_replay_bounds(hist: Seq<HistEntry>, done: Seq<bool>)
    requires
        done.len() == hist.len(),
    ensures
        spec_replay(hist, done).0 <= count_undone(done, 0) + 1,
        spec_replay(hist, done).1 <= spec_replay(hist, done).0,
    decreases count_undone(done, 0),
{
    let (done1, st) = spec_pass(hist, done, 0, Seq::empty(), Seq::empty());
    lemma_pass_monotone(hist, done, 0, Seq::empty(), Seq::empty());
    if !all_done(done1) {
        if all_done(done) {
            assert(forall|j: int| 0 <= j < done1.len() ==> done1[j]);
        }
        lemma_pass_progress(hist, done);
        lemma_replay_bounds(hist, done1);
        lemma_count_undone_le(done, done1, 0);
    }
}

/// Whether `x` occurs in `v`.
pub fn seq_has(v: &Vec<u64>, x: u64) -> (r: bool)
    ensures
        r == v@.contains(x),
{
    let mut j: usize = 0;
    while j < v.len()
        invariant
            j <= v@.len(),
            forall|t: int| 0 <= t < j ==> v@[t] != x,
        decreases v@.len() - j,
    {
        if v[j] == x {
            return true;
        }
        j = j + 1;
    }
    false
}

/// Whether the two occupancy vectors share an element (an intersection
/// emptiness test).
pub fn intersects(a: &Vec<u64>, b: &Vec<u64>) -> (r: bool)
    ensures
        r == !regs_available(a@, b@),
{
    let mut j: usize = 0;
    while j < a.len()
        invariant
            j <= a@.len(),
            forall|t: int| 0 <= t < j ==> !b@.contains(#[trigger] a@[t]),
        decreases a@.len() - j,
    {
        if seq_has(b, a[j]) {
            return true;
        }
        j = j + 1;
    }
    false
}

/// Whether every entry has fired.
pub fn all_set(v: &Vec<bool>) -> (r: bool)
    ensures
        r == all_done(v@),
{
    let mut j: usize = 0;
    while j < v.len()
        invariant
            j <= v@.len(),
            forall|t: int| 0 <= t < j ==> v@[t],
        decreases v@.len() - j,
    {
        if !v[j] {
            return false;
        }
        j = j + 1;
    }
    true
}

/// A vector of `n` entries, none fired.
pub fn none_done(n: usize) -> (r: Vec<bool>)
    ensures
        r@.len() == n,
        forall|t: int| 0 <= t < n ==> !r@[t],
{
    let mut v: Vec<bool> = Vec::new();
    let mut j: usize = 0;
    while j < n
        invariant
            j <= n,
            v@.len() == j,
            forall|t: int| 0 <= t < j ==> !v@[t],
        decreases n - j,
    {
        v.push(false);
        j = j + 1;
    }
    v
}

/// The undone count never exceeds the history length.
pub proof fn lemma_count_undone_len(done: Seq<bool>, i: int)
    requires
        0 <= i <= done.len(),
    ensures
        count_undone(done, i) <= done.len() - i,
    decreases done.len() - i,
{
    if i < done.len() {
        lemma_count_undone_len(done, i + 1);
    }
}

} // verus!
