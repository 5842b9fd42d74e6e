//! The system bus: one RAM region mapped onto a flat memory.
//!
//! External addresses in `[RAM_BASE, RAM_BASE + RAM_SIZE)` are translated to
//! 0-based offsets into the backing `Mem`; any access that does not lie
//! entirely inside that window faults with a load or store access fault.

use vstd::prelude::*;

use crate::exception::Exception;
use crate::mem::{le_load, le_store, width_bound, Bits, Mem};

verus! {

pub const RAM_BASE: u64 = 0x8000_0000;

pub const RAM_SIZE: u64 = 1024 * 1024 * 128;

pub const RAM_END: u64 = RAM_SIZE + RAM_BASE - 1;

/// Whether an access of `size` bytes starting at `addr` lies entirely inside
/// the RAM window.
pub open spec fn in_ram(addr: u64, size: u64) -> bool {
    RAM_BASE <= addr && addr + size <= RAM_BASE + RAM_SIZE
}

pub struct Bus {
    pub mem: Mem,
}

impl Bus {
    /// The backing memory covers exactly the RAM window.
    pub open spec fn wf(self) -> bool {
        self.mem@.len() == RAM_SIZE
    }

    /// The value a load of `size` bytes at `addr` yields from RAM contents
    /// `m`, or the access fault it raises.
    pub open spec fn spec_load(m: Seq<u8>, addr: u64, size: u64) -> Result<u64, Exception> {
        if in_ram(addr, size) {
            Ok((le_load(m, addr - RAM_BASE, size as int) as u64))
        } else {
            Err(Exception::LoadAccessFault(addr))
        }
    }

    /// The RAM contents after a store of `size` bytes at `addr`, or the
    /// access fault it raises (leaving memory unchanged).
    pub open spec fn spec_store(m: Seq<u8>, addr: u64, size: u64, value: u64) -> Result<
        Seq<u8>,
        Exception,
    > {
        if in_ram(addr, size) {
            Ok(le_store(m, addr - RAM_BASE, size as int, value as nat))
        } else {
            Err(Exception::StoreAMOAccessFault(addr))
        }
    }

    /// Build a bus whose RAM holds `program` at offset 0 and zeroes above it.
    pub fn new(program: Vec<u8>) -> (r: Bus)
        requires
            program@.len() <= RAM_SIZE,
        ensures
            r.wf(),
            r.mem@.subrange(0, program@.len() as int) == program@,
            forall|i: int| program@.len() <= i < RAM_SIZE ==> r.mem@[i] == 0,
    {
        let mut buf = program;
        let ghost orig = buf@;
        buf.resize(RAM_SIZE as usize, 0u8);
        proof {
            assert(buf@.subrange(0, orig.len() as int) == orig);
            assert(forall|i: int| orig.len() <= i < RAM_SIZE ==> buf@[i] == 0);
        }
        Bus { mem: Mem::new(buf) }
    }

    /// Load `bits.size` bytes at external address `addr`, zero-extended;
    /// faults if the access leaves the RAM window.
    pub fn load(&self, addr: u64, bits: Bits) -> (r: Result<u64, Exception>)
        requires
            self.wf(),
            bits.valid(),
        ensures
            r == Self::spec_load(self.mem@, addr, bits.size),
    {
        if addr >= RAM_BASE && addr - RAM_BASE <= RAM_SIZE - bits.size {
            proof {
                crate::mem::lemma_le_load_bound(self.mem@, (addr - RAM_BASE) as int, bits.size as int);
                crate::mem::lemma_width_bound_le_u64(bits.size as int);
            }
            Ok(self.mem.load(addr - RAM_BASE, bits))
        } else {
            Err(Exception::LoadAccessFault(addr))
        }
    }

    /// Store the low `bits.size` bytes of `value` at external address `addr`;
    /// faults if the access leaves the RAM window.
    pub fn store(&mut self, addr: u64, bits: Bits, value: u64) -> (r: Result<(), Exception>)
        requires
            old(self).wf(),
            bits.valid(),
        ensures
            final(self).wf(),
            match Self::spec_store(old(self).mem@, addr, bits.size, value) {
                Ok(m) => r == Ok::<(), Exception>(()) && final(self).mem@ == m,
                Err(e) => r == Err::<(), Exception>(e) && final(self).mem@ == old(self).mem@,
            },
    {
        if addr >= RAM_BASE && addr - RAM_BASE <= RAM_SIZE - bits.size {
            proof {
                crate::mem::lemma_le_store_frame(
                    self.mem@,
                    (addr - RAM_BASE) as int,
                    bits.size as int,
                    value as nat,
                );
            }
            self.mem.store(addr - RAM_BASE, bits, value);
            Ok(())
        } else {
            Err(Exception::StoreAMOAccessFault(addr))
        }
    }
}

/// Memory round-trip: storing `value` with some width and loading it back
/// from the same address yields `value` reduced modulo the width's capacity.
pub proof fn lemma_store_load_roundtrip(m: Seq<u8>, addr: u64, size: u64, value: u64)
    requires
        m.len() == RAM_SIZE,
        size == 1 || size == 2 || size == 4 || size == 8,
        in_ram(addr, size),
    ensures
        Bus::spec_store(m, addr, size, value) matches Ok(m2) && Bus::spec_load(m2, addr, size)
            == Ok::<u64, Exception>((value as nat % width_bound(size as int)) as u64),
{
    let off = addr - RAM_BASE;
    crate::mem::lemma_le_store_frame(m, off, size as int, value as nat);
    crate::mem::lemma_le_roundtrip(m, off, size as int, value as nat);
    crate::mem::lemma_width_bound_le_u64(size as int);
}

} // verus!
