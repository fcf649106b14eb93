//! Driver logic for the STM32 Flexible Memory Controller (FMC).
//!
//! The crate derives the register field values that the controller needs to
//! drive external SDRAM and NAND flash devices, and it produces the exact
//! command sequences that bring those devices out of reset. All register
//! traffic is recorded as plain data ([`fmc::FmcOperation`] values and NAND
//! bus transactions), so every derivation rule and every sequencing rule is
//! stated in a contract and proved. A thin platform layer applies the
//! recorded operations to the memory-mapped hardware.

use vstd::prelude::*;

pub mod devices;
pub mod fmc;
pub mod nand;
pub mod nand_device;
pub mod sdram;

verus! {

/// A configuration or construction failure.
///
/// Every failure is detected before any controller operation is recorded:
/// the derivations validate their whole input first, so a failed
/// initialisation leaves no partial register program behind.
#[derive(Clone, Copy, Debug, PartialEq, Eq, Structural)]
pub enum FmcError {
    /// SDRAM CAS latency outside 1..=3 cycles
    CasLatencyRange,
    /// SDRAM row address bits outside 11..=13
    RowBitsRange,
    /// SDRAM column address bits outside 8..=11
    ColumnBitsRange,
    /// SDRAM read pipe delay above 2 cycles
    ReadPipeDelayRange,
    /// SDRAM internal bank count other than 2 or 4
    InternalBankCount,
    /// SDRAM memory data width other than 8, 16 or 32 bits
    MemoryDataWidth,
    /// Source clock too fast: even a divide-by-3 SD clock misses the limit
    ClockDivideRange,
    /// A nanosecond timing parameter too small for its register field
    TimingUnderflow,
    /// Refresh counter outside its 13-bit field or below the minimum of 41
    RefreshCounterRange,
    /// Not enough address pins for the SDRAM rows or columns
    AddressPins,
    /// Not enough bank address pins for the SDRAM internal banks
    BankPins,
    /// NAND data bus width differs between the pins and the device
    DataPins,
    /// NAND data width other than 8 or 16 bits
    NandDataWidth,
    /// Source clock has no whole nanosecond period
    NandClockPeriod,
    /// NAND setup cycle count reached the reserved value 255
    NandSetupRange,
    /// NAND wait cycle count reached the reserved value 255
    NandWaitRange,
    /// NAND hold cycle count reached the reserved value 255
    NandHoldRange,
    /// NAND attribute-space hold cycle count reached the reserved value 255
    NandAttributeHoldRange,
    /// NAND bus turnaround (hiz) cycle count reached the reserved value 255
    NandHizRange,
    /// NAND ALE-to-read delay does not fit its 4-bit field
    NandTarRange,
    /// NAND CLE-to-read delay does not fit its 4-bit field
    NandTclrRange,
}

/// A device-specific FMC peripheral: ownership of the controller together
/// with its bus clock and its source clock frequency. A platform layer
/// implements this for the hardware; [`fmc::SimulatedFmc`] implements it
/// in memory.
pub trait FmcPeripheral {
    /// The frequency, in Hz, of the clock feeding the FMC kernel.
    spec fn spec_source_clock_hz(&self) -> u32;

    /// Enable the FMC on its peripheral bus.
    fn enable(&mut self);

    /// Enable the FMC memory controller function (not always required).
    fn memory_controller_enable(&mut self);

    /// The frequency of the clock used as a source for the FMC clock.
    fn source_clock_hz(&self) -> (r: u32)
        ensures
            r == self.spec_source_clock_hz(),
    ;
}

} // verus!
