//! Tests SDRAM pin constraints apply correctly

use stm32_fmc::FmcError;
use stm32_fmc::fmc::{AddressPins11, AddressPins12, SimulatedFmc};
use stm32_fmc::sdram::{
    FmcSdramConfiguration, FmcSdramTiming, Sdram, SdramBank1, SdramChip, SdramPinRecord,
};

const BURST_LENGTH_1: u16 = 0x0000;
const BURST_TYPE_SEQUENTIAL: u16 = 0x0000;
const CAS_LATENCY_3: u16 = 0x0030;
const OPERATING_MODE_STANDARD: u16 = 0x0000;
const WRITEBURST_MODE_SINGLE: u16 = 0x0200;

#[derive(Clone, Copy, Debug, PartialEq)]
pub struct DummyChip {}

impl SdramChip for DummyChip {
    fn mode_register(&self) -> u16 {
        BURST_LENGTH_1 | BURST_TYPE_SEQUENTIAL | CAS_LATENCY_3 | OPERATING_MODE_STANDARD
            | WRITEBURST_MODE_SINGLE
    }

    fn config(&self) -> FmcSdramConfiguration {
        FmcSdramConfiguration {
            column_bits: 9,
            row_bits: 12,
            memory_data_width: 32, // 32-bit
            internal_banks: 4,     // 4 internal banks
            cas_latency: 3,        // CAS latency = 3
            write_protection: false,
            read_burst: true,
            read_pipe_delay_cycles: 0,
        }
    }

    fn timing(&self) -> FmcSdramTiming {
        FmcSdramTiming {
            startup_delay_ns: 100_000,    // 100 us
            max_sd_clock_hz: 100_000_000, // 100 MHz
            refresh_period_ns: 15_625,    // 64ms / (4096 rows) = 15625ns
            mode_register_to_active: 2,   // tMRD = 2 cycles
            exit_self_refresh: 7,         // tXSR = 70ns
            active_to_precharge: 4,       // tRAS = 42ns
            row_cycle: 7,                 // tRC = 70ns
            row_precharge: 2,             // tRP = 18ns
            row_to_column: 2,             // tRCD = 18ns
        }
    }
}

#[test]
/// SDRAM with 12 address pins, 4 banks
fn sdram_pins_12a_4b() {
    let fmc = SimulatedFmc::new(100_000_000);
    let pins = SdramPinRecord { bank: SdramBank1, address: AddressPins12, internal_banks: 4 };
    let chip = DummyChip {};

    // Check we can create a SDRAM
    assert!(Sdram::new(fmc, pins, chip).is_ok());
}

#[test]
/// SDRAM with too few address pins for a chip with 12 row bits must be
/// rejected at construction
fn sdram_pins_12a_4b_not_enough_adress_pins() {
    let fmc = SimulatedFmc::new(100_000_000);
    // 11 address pins (!)
    let pins = SdramPinRecord { bank: SdramBank1, address: AddressPins11, internal_banks: 4 };
    let chip = DummyChip {};

    match Sdram::new(fmc, pins, chip) {
        Err(e) => assert_eq!(e, FmcError::AddressPins),
        Ok(_) => panic!("construction must fail without enough address pins"),
    }
}

#[test]
/// SDRAM with too few bank address pins for a chip with 4 internal banks
/// must be rejected at construction
fn sdram_pins_12a_4b_not_enough_bank_pins() {
    let fmc = SimulatedFmc::new(100_000_000);
    // 2 internal banks (!)
    let pins = SdramPinRecord { bank: SdramBank1, address: AddressPins12, internal_banks: 2 };
    let chip = DummyChip {};

    match Sdram::new(fmc, pins, chip) {
        Err(e) => assert_eq!(e, FmcError::BankPins),
        Ok(_) => panic!("construction must fail without enough bank address pins"),
    }
}

#[test]
/// Test that we can implement the SdramChip trait
fn sdram_chip_impl() {
    let fmc = SimulatedFmc::new(100_000_000);
    let pins = SdramPinRecord { bank: SdramBank1, address: AddressPins12, internal_banks: 4 };
    let chip = DummyChip {};

    // Check we can create a SDRAM
    assert!(Sdram::new(fmc, pins, chip).is_ok());
}
