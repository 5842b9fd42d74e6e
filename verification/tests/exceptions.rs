//! Exception taxonomy tests: payloads, cause codes, and fatality.

use rvsim::exception::Exception;

#[test]
fn payloads() {
    assert_eq!(Exception::IllegalInstruction(0x1234).value(), 0x1234);
    assert_eq!(Exception::LoadAccessFault(7).value(), 7);
    assert_eq!(Exception::Breakpoint(99).value(), 99);
    assert_eq!(Exception::StoreAMOPageFault(u64::MAX).value(), u64::MAX);
}

#[test]
fn codes() {
    assert_eq!(Exception::InstructionAddrMisaligned(0).code(), 0);
    assert_eq!(Exception::InstructionAccessFault(0).code(), 1);
    assert_eq!(Exception::IllegalInstruction(0).code(), 2);
    assert_eq!(Exception::Breakpoint(0).code(), 3);
    assert_eq!(Exception::LoadAccessMisaligned(0).code(), 4);
    assert_eq!(Exception::LoadAccessFault(0).code(), 5);
    assert_eq!(Exception::StoreAMOAddrMisaligned(0).code(), 6);
    assert_eq!(Exception::StoreAMOAccessFault(0).code(), 7);
    assert_eq!(Exception::EnvironmentCallFromUMode(0).code(), 8);
    assert_eq!(Exception::EnvironmentCallFromSMode(0).code(), 9);
    assert_eq!(Exception::EnvironmentCallFromMMode(0).code(), 11);
    assert_eq!(Exception::InstructionPageFault(0).code(), 12);
    assert_eq!(Exception::LoadPageFault(0).code(), 13);
    assert_eq!(Exception::StoreAMOPageFault(0).code(), 15);
}

#[test]
fn fatality() {
    assert!(Exception::InstructionAddrMisaligned(0).is_fatal());
    assert!(Exception::InstructionAccessFault(0).is_fatal());
    assert!(Exception::IllegalInstruction(0).is_fatal());
    assert!(Exception::LoadAccessFault(0).is_fatal());
    assert!(Exception::StoreAMOAddrMisaligned(0).is_fatal());
    assert!(Exception::StoreAMOAccessFault(0).is_fatal());
    assert!(!Exception::Breakpoint(0).is_fatal());
    assert!(!Exception::LoadAccessMisaligned(0).is_fatal());
    assert!(!Exception::EnvironmentCallFromUMode(0).is_fatal());
    assert!(!Exception::EnvironmentCallFromSMode(0).is_fatal());
    assert!(!Exception::EnvironmentCallFromMMode(0).is_fatal());
    assert!(!Exception::InstructionPageFault(0).is_fatal());
    assert!(!Exception::LoadPageFault(0).is_fatal());
    assert!(!Exception::StoreAMOPageFault(0).is_fatal());
}
