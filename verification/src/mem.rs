//! Flat byte-addressable memory with little-endian multi-byte access.
//!
//! `Mem` owns a contiguous byte buffer, addressed 0-based. `load` reads
//! `width` bytes little-endian and zero-extends the value to 64 bits;
//! `store` writes the low `width` bytes of a value. Callers must keep
//! accesses inside the buffer and use widths of 1, 2, 4 or 8 bytes.

use vstd::prelude::*;

verus! {

/// An access width in bytes; the supported widths are 1, 2, 4 and 8.
#[derive(Debug, Copy, Clone, PartialEq, Eq, Structural)]
pub struct Bits {
    pub size: u64,
}

impl Bits {
    /// The width is one of the supported byte counts.
    pub open spec fn valid(self) -> bool {
        self.size == 1 || self.size == 2 || self.size == 4 || self.size == 8
    }
}

/// 256^width: one more than the largest value a `width`-byte field can hold.
pub open spec fn width_bound(width: int) -> nat
    decreases width,
{
    if width <= 0 {
        1
    } else {
        256 * width_bound(width - 1)
    }
}

/// The value read little-endian from `width` bytes of `m` starting at `addr`.
pub open spec fn le_load(m: Seq<u8>, addr: int, width: int) -> nat
    decreases width,
{
    if width <= 0 {
        0
    } else {
        (m[addr] + 256 * le_load(m, addr + 1, width - 1)) as nat
    }
}

/// `m` with the low `width` bytes of `v` written little-endian at `addr`.
pub open spec fn le_store(m: Seq<u8>, addr: int, width: int, v: nat) -> Seq<u8>
    decreases width,
{
    if width <= 0 {
        m
    } else {
        le_store(m.update(addr, (v % 256) as u8), addr + 1, width - 1, v / 256)
    }
}

/// A little-endian read never exceeds `width_bound` of its width.
pub proof fn lemma_le_load_bound(m: Seq<u8>, addr: int, width: int)
    requires
        0 <= addr,
        addr + width <= m.len(),
    ensures
        le_load(m, addr, width) < width_bound(width),
    decreases width,
{
    if width > 0 {
        lemma_le_load_bound(m, addr + 1, width - 1);
    }
}

/// `le_store` leaves the length and all bytes outside `[addr, addr+width)`
/// unchanged.
pub proof fn lemma_le_store_frame(m: Seq<u8>, addr: int, width: int, v: nat)
    requires
        0 <= addr,
        addr + width <= m.len(),
    ensures
        le_store(m, addr, width, v).len() == m.len(),
        forall|i: int|
            0 <= i < m.len() && !(addr <= i < addr + width) ==> le_store(m, addr, width, v)[i]
                == m[i],
    decreases width,
{
    if width > 0 {
        let m1 = m.update(addr, (v % 256) as u8);
        lemma_le_store_frame(m1, addr + 1, width - 1, v / 256);
        assert forall|i: int|
            0 <= i < m.len() && !(addr <= i < addr + width) implies le_store(m, addr, width, v)[i]
            == m[i] by {
            assert(le_store(m, addr, width, v)[i] == m1[i]);
        }
    }
}

/// Reading back a just-written field recovers the value reduced modulo the
/// field's capacity.
pub proof fn lemma_le_roundtrip(m: Seq<u8>, addr: int, width: int, v: nat)
    requires
        0 <= addr,
        addr + width <= m.len(),
    ensures
        le_load(le_store(m, addr, width, v), addr, width) == v % width_bound(width),
    decreases width,
{
    if width <= 0 {
        assert(v % 1 == 0) by (nonlinear_arith);
    } else {
        let m1 = m.update(addr, (v % 256) as u8);
        lemma_le_roundtrip(m1, addr + 1, width - 1, v / 256);
        lemma_le_store_frame(m1, addr + 1, width - 1, v / 256);
        assert(le_store(m, addr, width, v) == le_store(m1, addr + 1, width - 1, v / 256));
        assert(le_store(m1, addr + 1, width - 1, v / 256)[addr] == m1[addr]);
        assert(m1[addr] == (v % 256) as u8);
        assert(le_store(m, addr, width, v)[addr] == v % 256);
        let b = width_bound(width - 1);
        lemma_width_bound_pos(width - 1);
        vstd::arithmetic::div_mod::lemma_breakdown(v as int, 256, b as int);
    }
}

/// The field capacity is always positive.
pub proof fn lemma_width_bound_pos(width: int)
    ensures
        width_bound(width) >= 1,
    decreases width,
{
    if width > 0 {
        lemma_width_bound_pos(width - 1);
    }
}

/// A flat byte buffer.
pub struct Mem {
    mem: Vec<u8>,
}

impl View for Mem {
    type V = Seq<u8>;

    closed spec fn view(&self) -> Seq<u8> {
        self.mem@
    }
}

impl Mem {
    pub fn new(mem: Vec<u8>) -> (r: Mem)
        ensures
            r@ == mem@,
    {
        Mem { mem }
    }

    pub fn len(&self) -> (n: usize)
        ensures
            n == self@.len(),
    {
        self.mem.len()
    }

    /// Read `bits.size` bytes little-endian starting at `addr`, zero-extended
    /// to 64 bits.
    pub fn load(&self, addr: u64, bits: Bits) -> (r: u64)
        requires
            bits.valid(),
            addr + bits.size <= self@.len(),
        ensures
            r == le_load(self@, addr as int, bits.size as int),
    {
        let w = bits.size;
        let n = self.mem.len();
        let mut r: u64 = 0;
        let mut j: u64 = w;
        proof {
            lemma_width_bound_le_u64(w as int);
        }
        while j > 0
            invariant
                j <= w,
                bits.valid(),
                w == bits.size,
                n == self@.len(),
                n <= usize::MAX,
                addr + w <= self@.len(),
                r == le_load(self@, addr + j, w - j),
                width_bound(w as int) <= 0x1_0000_0000_0000_0000,
            decreases j,
        {
            proof {
                lemma_le_load_bound(self@, addr as int + j - 1, w - j + 1);
                lemma_width_bound_monotonic(w - j + 1, w as int);
            }
            let idx: u64 = addr + j - 1;
            let byte = self.mem[idx as usize];
            r = r * 256 + byte as u64;
            j = j - 1;
        }
        r
    }

    /// Write the low `bits.size` bytes of `value` little-endian at `addr`.
    pub fn store(&mut self, addr: u64, bits: Bits, value: u64)
        requires
            bits.valid(),
            addr + bits.size <= old(self)@.len(),
        ensures
            final(self)@ == le_store(old(self)@, addr as int, bits.size as int, value as nat),
    {
        let w = bits.size;
        let n = self.mem.len();
        let mut cur: u64 = value;
        let mut i: u64 = 0;
        while i < w
            invariant
                i <= w,
                w == bits.size,
                bits.valid(),
                n == self@.len(),
                n <= usize::MAX,
                addr + w <= self@.len(),
                self@.len() == old(self)@.len(),
                le_store(old(self)@, addr as int, w as int, value as nat) == le_store(
                    self@,
                    addr + i,
                    w - i,
                    cur as nat,
                ),
            decreases w - i,
        {
            let ghost prev = self@;
            let ghost pcur = cur;
            let idx: u64 = addr + i;
            let byte: u8 = (cur % 256) as u8;
            self.mem.set(idx as usize, byte);
            cur = cur / 256;
            proof {
                assert(self@ == prev.update(addr + i, ((pcur as nat) % 256) as u8));
                assert(le_store(prev, addr + i, w - i, pcur as nat) == le_store(
                    self@,
                    addr + i + 1,
                    w - i - 1,
                    (pcur as nat) / 256,
                ));
                assert(cur as nat == (pcur as nat) / 256);
            }
            i = i + 1;
        }
    }
}

/// For widths up to 8 bytes the field capacity fits 64 bits.
pub proof fn lemma_width_bound_le_u64(width: int)
    requires
        width <= 8,
    ensures
        width_bound(width) <= 0x1_0000_0000_0000_0000,
{
    assert(width_bound(1) == 256 * width_bound(0));
    assert(width_bound(2) == 256 * width_bound(1));
    assert(width_bound(3) == 256 * width_bound(2));
    assert(width_bound(4) == 256 * width_bound(3));
    assert(width_bound(5) == 256 * width_bound(4));
    assert(width_bound(6) == 256 * width_bound(5));
    assert(width_bound(7) == 256 * width_bound(6));
    assert(width_bound(8) == 256 * width_bound(7));
    if width > 0 {
        lemma_width_bound_monotonic(width, 8);
    }
}

/// `width_bound` grows with the width.
pub proof fn lemma_width_bound_monotonic(w1: int, w2: int)
    requires
        w1 <= w2,
    ensures
        width_bound(w1) <= width_bound(w2),
    decreases w2 - w1,
{
    if w1 < w2 {
        lemma_width_bound_monotonic(w1, w2 - 1);
    }
}

} // verus!
