//! Tests for the FMC bank map and the basic capability types.

use stm32_fmc::FmcPeripheral;
use stm32_fmc::fmc::{
    AddressPinSet, AddressPins11, AddressPins12, AddressPins13, FmcBank, FmcRegisters,
    SimulatedFmc,
};
use stm32_fmc::sdram::SdramTargetBank;

#[test]
fn bank_addresses_match_the_memory_map() {
    assert_eq!(FmcBank::Bank1.ptr(), 0x6000_0000);
    assert_eq!(FmcBank::Bank2.ptr(), 0x7000_0000);
    assert_eq!(FmcBank::Bank3.ptr(), 0x8000_0000);
    assert_eq!(FmcBank::Bank4.ptr(), 0x9000_0000);
    assert_eq!(FmcBank::Bank5.ptr(), 0xC000_0000);
    assert_eq!(FmcBank::Bank6.ptr(), 0xD000_0000);
}

#[test]
fn address_pin_sets_report_their_line_counts() {
    assert_eq!(AddressPins11.address_pins(), 11);
    assert_eq!(AddressPins12.address_pins(), 12);
    assert_eq!(AddressPins13.address_pins(), 13);
}

#[test]
fn a_new_recorder_is_empty() {
    let regs = FmcRegisters::new();
    assert!(regs.operations().is_empty());
}

#[test]
fn the_simulated_peripheral_reports_its_clock() {
    let fmc = SimulatedFmc::new(133_000_000);
    assert_eq!(fmc.source_clock_hz(), 133_000_000);
}

#[test]
fn target_banks_come_from_their_numbers() {
    assert_eq!(SdramTargetBank::from_number(1), Some(SdramTargetBank::Bank1));
    assert_eq!(SdramTargetBank::from_number(2), Some(SdramTargetBank::Bank2));
    assert_eq!(SdramTargetBank::from_number(0), None);
    assert_eq!(SdramTargetBank::from_number(3), None);
}
