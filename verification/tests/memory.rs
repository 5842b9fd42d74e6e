//! Memory and bus tests: little-endian order, store/load round trips at
//! every width, and the access-fault behaviour at the RAM window's edges.

use rvsim::bus::{Bus, RAM_BASE, RAM_END, RAM_SIZE};
use rvsim::exception::Exception;
use rvsim::mem::{Bits, Mem};

#[test]
fn mem_little_endian() {
    let m = Mem::new(vec![0x93, 0x00, 0xA0, 0x02, 0xFF, 0x00, 0x00, 0x00]);
    assert_eq!(m.load(0, Bits { size: 4 }), 0x02A00093);
    assert_eq!(m.load(0, Bits { size: 1 }), 0x93);
    assert_eq!(m.load(0, Bits { size: 2 }), 0x0093);
    assert_eq!(m.load(0, Bits { size: 8 }), 0x000000FF_02A00093);
    assert_eq!(m.load(4, Bits { size: 1 }), 0xFF);
}

#[test]
fn mem_store_widths() {
    let mut m = Mem::new(vec![0; 16]);
    m.store(0, Bits { size: 8 }, 0x1122334455667788);
    assert_eq!(m.load(0, Bits { size: 8 }), 0x1122334455667788);
    assert_eq!(m.load(0, Bits { size: 1 }), 0x88);
    assert_eq!(m.load(7, Bits { size: 1 }), 0x11);
    m.store(8, Bits { size: 2 }, 0xABCD);
    assert_eq!(m.load(8, Bits { size: 2 }), 0xABCD);
    assert_eq!(m.load(8, Bits { size: 1 }), 0xCD);
    // a narrow store keeps only the low bytes of the value
    m.store(12, Bits { size: 1 }, 0x1234);
    assert_eq!(m.load(12, Bits { size: 1 }), 0x34);
}

#[test]
fn mem_roundtrip_all_widths() {
    let mut m = Mem::new(vec![0; 32]);
    let value = 0xFEDCBA9876543210;
    for (i, w) in [1u64, 2, 4, 8].iter().enumerate() {
        let addr = (i as u64) * 8;
        m.store(addr, Bits { size: *w }, value);
        let mask = if *w == 8 { u64::MAX } else { (1u64 << (8 * *w)) - 1 };
        assert_eq!(m.load(addr, Bits { size: *w }), value & mask);
    }
}

#[test]
fn bus_roundtrip() {
    let mut bus = Bus::new(vec![]);
    assert_eq!(bus.store(RAM_BASE + 64, Bits { size: 4 }, 0xDEADBEEF), Ok(()));
    assert_eq!(bus.load(RAM_BASE + 64, Bits { size: 4 }), Ok(0xDEADBEEF));
    assert_eq!(bus.load(RAM_BASE + 64, Bits { size: 8 }), Ok(0xDEADBEEF));
    assert_eq!(bus.store(RAM_BASE, Bits { size: 8 }, u64::MAX), Ok(()));
    assert_eq!(bus.load(RAM_BASE, Bits { size: 8 }), Ok(u64::MAX));
    // unaligned accesses are tolerated
    assert_eq!(bus.load(RAM_BASE + 1, Bits { size: 4 }), Ok(0xFFFFFFFF));
    assert_eq!(bus.load(RAM_BASE + 5, Bits { size: 4 }), Ok(0x00FFFFFF));
}

#[test]
fn bus_faults() {
    let mut bus = Bus::new(vec![]);
    assert_eq!(
        bus.load(0, Bits { size: 8 }),
        Err(Exception::LoadAccessFault(0))
    );
    assert_eq!(
        bus.load(RAM_BASE - 1, Bits { size: 1 }),
        Err(Exception::LoadAccessFault(RAM_BASE - 1))
    );
    assert_eq!(
        bus.store(RAM_BASE + RAM_SIZE, Bits { size: 1 }, 0),
        Err(Exception::StoreAMOAccessFault(RAM_BASE + RAM_SIZE))
    );
    // an access that starts inside the window but runs past its end faults
    assert_eq!(
        bus.load(RAM_END - 3, Bits { size: 8 }),
        Err(Exception::LoadAccessFault(RAM_END - 3))
    );
    // the last full byte is reachable
    assert_eq!(bus.load(RAM_END, Bits { size: 1 }), Ok(0));
}

#[test]
fn bus_program_image() {
    let bus = Bus::new(vec![0x93, 0x00, 0xA0, 0x02]);
    assert_eq!(bus.load(RAM_BASE, Bits { size: 4 }), Ok(0x02A00093));
    assert_eq!(bus.load(RAM_BASE + 4, Bits { size: 4 }), Ok(0));
}
