//! Memory device definitions: per-chip descriptor tables, one immutable
//! record per chip model.

use vstd::prelude::*;

use crate::sdram::{FmcSdramConfiguration, FmcSdramTiming, SdramChip};

verus! {

const BURST_LENGTH_1: u16 = 0x0000;

const BURST_TYPE_SEQUENTIAL: u16 = 0x0000;

const CAS_LATENCY_2: u16 = 0x0020;

const CAS_LATENCY_3: u16 = 0x0030;

const OPERATING_MODE_STANDARD: u16 = 0x0000;

const WRITEBURST_MODE_SINGLE: u16 = 0x0200;

/// ISSI IS42S16400J SDRAM with speed grade 7.
///
/// Configured with CAS latency 2, limited to 100 MHz.
#[derive(Clone, Copy, Debug, PartialEq, Eq, Structural)]
pub struct Is42s16400j {}

impl SdramChip for Is42s16400j {
    /// Value of the mode register
    fn mode_register(&self) -> u16 {
        BURST_LENGTH_1 | BURST_TYPE_SEQUENTIAL | CAS_LATENCY_2 | OPERATING_MODE_STANDARD
            | WRITEBURST_MODE_SINGLE
    }

    /// SDRAM controller configuration
    fn config(&self) -> FmcSdramConfiguration {
        FmcSdramConfiguration {
            column_bits: 8,
            row_bits: 12,
            memory_data_width: 16,  // 16-bit
            internal_banks: 4,  // 4 internal banks
            cas_latency: 2,  // CAS latency = 2
            write_protection: false,
            read_burst: true,
            read_pipe_delay_cycles: 0,
        }
    }

    /// Timing parameters
    fn timing(&self) -> FmcSdramTiming {
        FmcSdramTiming {
            startup_delay_ns: 100_000,  // 100 us
            max_sd_clock_hz: 100_000_000,  // 100 MHz
            refresh_period_ns: 15_625,  // 64ms / (4096 rows) = 15625ns
            mode_register_to_active: 2,  // tMRD = 2 cycles
            exit_self_refresh: 7,  // tXSR = 70ns
            active_to_precharge: 4,  // tRAS = 42ns
            row_cycle: 7,  // tRC = 63ns
            row_precharge: 2,  // tRP = 15ns
            row_to_column: 2,  // tRCD = 15ns
        }
    }
}

/// Alliance Memory AS4C16M32MSA SDRAM with speed grade 6.
///
/// Configured with CAS latency 3; at 166 MHz one clock cycle is 6.024 ns.
#[derive(Clone, Copy, Debug, PartialEq, Eq, Structural)]
pub struct As4c16m32msa {}

impl SdramChip for As4c16m32msa {
    /// Value of the mode register
    fn mode_register(&self) -> u16 {
        BURST_LENGTH_1 | BURST_TYPE_SEQUENTIAL | CAS_LATENCY_3 | OPERATING_MODE_STANDARD
            | WRITEBURST_MODE_SINGLE
    }

    /// SDRAM controller configuration
    fn config(&self) -> FmcSdramConfiguration {
        FmcSdramConfiguration {
            column_bits: 9,  // A0-A8
            row_bits: 13,  // A0-A12
            memory_data_width: 32,  // 32-bit
            internal_banks: 4,  // 4 internal banks
            cas_latency: 3,  // CAS latency = 3
            write_protection: false,
            read_burst: true,
            read_pipe_delay_cycles: 0,
        }
    }

    /// Timing parameters
    fn timing(&self) -> FmcSdramTiming {
        FmcSdramTiming {
            startup_delay_ns: 200_000,  // 200 us
            max_sd_clock_hz: 166_000_000,  // 166 MHz
            refresh_period_ns: 7_813,  // 64ms / (8192 rows) = 7812.5ns
            mode_register_to_active: 2,  // tMRD = 2 cycles
            exit_self_refresh: 14,  // tXSR = 80ns
            active_to_precharge: 8,  // tRAS = 48ns
            row_cycle: 10,  // tRC = 60ns
            row_precharge: 3,  // tRP = 18ns
            row_to_column: 3,  // tRCD = 18ns
        }
    }
}

} // verus!
