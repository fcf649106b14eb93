//! The Flexible Memory Controller: its banks, its recorded register
//! operations, and the pin roles of its external bus.

use vstd::prelude::*;

use crate::FmcPeripheral;
use crate::sdram::SdramTargetBank;

verus! {

/// FMC banks and the base addresses of their memory windows.
#[derive(Clone, Copy, Debug, PartialEq, Eq, Structural)]
pub enum FmcBank {
    /// Bank1: NOR/PSRAM/SRAM
    Bank1,
    /// Bank2:
    Bank2,
    /// Bank3: NAND Flash
    Bank3,
    /// Bank4:
    Bank4,
    /// Bank5: SDRAM 1
    Bank5,
    /// Bank6: SDRAM 2
    Bank6,
}

impl FmcBank {
    /// Base address of this bank's memory-mapped window.
    pub open spec fn spec_address(self) -> u32 {
        match self {
            FmcBank::Bank1 => 0x6000_0000u32,
            FmcBank::Bank2 => 0x7000_0000u32,
            FmcBank::Bank3 => 0x8000_0000u32,
            FmcBank::Bank4 => 0x9000_0000u32,
            FmcBank::Bank5 => 0xC000_0000u32,
            FmcBank::Bank6 => 0xD000_0000u32,
        }
    }

    /// Return the base address of this FMC bank. A platform layer turns the
    /// address into a pointer; the library itself only records it.
    pub fn ptr(self) -> (r: u32)
        ensures
            r == self.spec_address(),
    {
        match self {
            FmcBank::Bank1 => 0x6000_0000u32,
            FmcBank::Bank2 => 0x7000_0000u32,
            FmcBank::Bank3 => 0x8000_0000u32,
            FmcBank::Bank4 => 0x9000_0000u32,
            FmcBank::Bank5 => 0xC000_0000u32,
            FmcBank::Bank6 => 0xD000_0000u32,
        }
    }
}

/// One recorded controller operation: a register-field write, or the one
/// mandated timed wait of an initialisation sequence. Field names follow the
/// reference manual's register fields; every value is already encoded exactly
/// as the hardware field expects it.
#[derive(Clone, Copy, Debug, PartialEq, Eq, Structural)]
pub enum FmcOperation {
    /// SDCR1 fields shared by both SDRAM banks
    ModifySdcrCommon { rpipe: u32, rburst: u32, sdclk: u32 },
    /// SDCR1 or SDCR2 fields of the targeted SDRAM bank
    ModifySdcrBank { bank: SdramTargetBank, wp: u32, cas: u32, nb: u32, mwid: u32, nr: u32, nc: u32 },
    /// SDTR1 fields shared by both SDRAM banks
    ModifySdtrCommon { trc: u32, trp: u32 },
    /// SDTR1 or SDTR2 fields of the targeted SDRAM bank
    ModifySdtrBank { bank: SdramTargetBank, trcd: u32, twr: u32, tras: u32, txsr: u32, tmrd: u32 },
    /// SDCMR: one SDRAM command
    WriteSdcmr { mrd: u32, nrfs: u32, ctb1: u32, ctb2: u32, mode: u32 },
    /// SDRTR: the refresh counter
    WriteSdrtr { count: u32 },
    /// PCR: NAND control fields
    ModifyPcr { tar: u32, tclr: u32, eccps: u32, eccen: u32, pwid: u32, ptyp: u32, pwaiten: u32 },
    /// PMEM: common memory space timing
    ModifyPmem { memhiz: u32, memhold: u32, memwait: u32, memset: u32 },
    /// PATT: attribute memory space timing
    ModifyPatt { atthiz: u32, atthold: u32, attwait: u32, attset: u32 },
    /// PCR PBKEN: enable the NAND bank
    EnableNandBank,
    /// Block for the given number of microseconds before the next operation
    DelayMicroseconds { us: u32 },
}

/// The register access capability: a recorder of controller operations.
///
/// The driver computes every register field value up front and then records
/// the exact, ordered program of writes and waits here. A platform layer
/// replays the program against the memory-mapped register block.
pub struct FmcRegisters {
    ops: Vec<FmcOperation>,
}

impl View for FmcRegisters {
    type V = Seq<FmcOperation>;

    closed spec fn view(&self) -> Seq<FmcOperation> {
        self.ops@
    }
}

impl FmcRegisters {
    /// A recorder with no operations yet.
    pub fn new() -> (r: Self)
        ensures
            r@ == Seq::<FmcOperation>::empty(),
    {
        FmcRegisters { ops: Vec::new() }
    }

    /// The operations recorded so far, oldest first.
    pub fn operations(&self) -> (r: &Vec<FmcOperation>)
        ensures
            r@ == self@,
    {
        &self.ops
    }

    /// Record one operation.
    pub(crate) fn record(&mut self, op: FmcOperation)
        ensures
            final(self)@ == old(self)@.push(op),
    {
        self.ops.push(op);
    }
}

/// An in-memory FMC peripheral with a fixed source clock. It stands in for
/// the hardware in tests and lets every sequence the driver records be
/// inspected without a board.
pub struct SimulatedFmc {
    clock_hz: u32,
}

impl SimulatedFmc {
    /// A simulated peripheral whose source clock runs at `clock_hz`.
    pub fn new(clock_hz: u32) -> (r: Self)
        ensures
            r.spec_source_clock_hz() == clock_hz,
    {
        SimulatedFmc { clock_hz }
    }
}

impl FmcPeripheral for SimulatedFmc {
    closed spec fn spec_source_clock_hz(&self) -> u32 {
        self.clock_hz
    }

    fn enable(&mut self) {
    }

    fn memory_controller_enable(&mut self) {
    }

    fn source_clock_hz(&self) -> (r: u32)
    {
        self.clock_hz
    }
}

/// Set of address pins
pub trait AddressPinSet {
    /// The number of address pins in this set of pins.
    spec fn spec_address_pins(&self) -> u8;

    /// The number of address pins in this set of pins.
    fn address_pins(&self) -> (r: u8)
        ensures
            r == self.spec_address_pins(),
    ;
}

/// Type to mark that there are 11 address pins
#[derive(Clone, Copy, Debug)]
pub struct AddressPins11;

impl AddressPinSet for AddressPins11 {
    open spec fn spec_address_pins(&self) -> u8 {
        11
    }

    fn address_pins(&self) -> u8 {
        11
    }
}

/// Type to mark that there are 12 address pins
#[derive(Clone, Copy, Debug)]
pub struct AddressPins12;

impl AddressPinSet for AddressPins12 {
    open spec fn spec_address_pins(&self) -> u8 {
        12
    }

    fn address_pins(&self) -> u8 {
        12
    }
}

/// Type to mark that there are 13 address pins
#[derive(Clone, Copy, Debug)]
pub struct AddressPins13;

impl AddressPinSet for AddressPins13 {
    open spec fn spec_address_pins(&self) -> u8 {
        13
    }

    fn address_pins(&self) -> u8 {
        13
    }
}

// Each physical pin type of a hardware abstraction layer is marked with
// the electrical roles it can play on the FMC bus. A pin-set record is
// built from pins so marked.

/// Marks a type as an A0 pin
pub trait A0 {
}

/// Marks a type as an A1 pin
pub trait A1 {
}

/// Marks a type as an A2 pin
pub trait A2 {
}

/// Marks a type as an A3 pin
pub trait A3 {
}

/// Marks a type as an A4 pin
pub trait A4 {
}

/// Marks a type as an A5 pin
pub trait A5 {
}

/// Marks a type as an A6 pin
pub trait A6 {
}

/// Marks a type as an A7 pin
pub trait A7 {
}

/// Marks a type as an A8 pin
pub trait A8 {
}

/// Marks a type as an A9 pin
pub trait A9 {
}

/// Marks a type as an A10 pin
pub trait A10 {
}

/// Marks a type as an A11 pin
pub trait A11 {
}

/// Marks a type as an A12 pin
pub trait A12 {
}

/// Marks a type as an A13 pin
pub trait A13 {
}

/// Marks a type as an A14 pin
pub trait A14 {
}

/// Marks a type as an A15 pin
pub trait A15 {
}

/// Marks a type as an A16 pin
pub trait A16 {
}

/// Marks a type as an A17 pin
pub trait A17 {
}

/// Marks a type as an A18 pin
pub trait A18 {
}

/// Marks a type as an A19 pin
pub trait A19 {
}

/// Marks a type as an A20 pin
pub trait A20 {
}

/// Marks a type as an A21 pin
pub trait A21 {
}

/// Marks a type as an A22 pin
pub trait A22 {
}

/// Marks a type as an A23 pin
pub trait A23 {
}

/// Marks a type as an A24 pin
pub trait A24 {
}

/// Marks a type as an A25 pin
pub trait A25 {
}

/// Marks a type as a BA0 pin
pub trait BA0 {
}

/// Marks a type as a BA1 pin
pub trait BA1 {
}

/// Marks a type as a CLK pin
pub trait CLK {
}

/// Marks a type as a D0 pin
pub trait D0 {
}

/// Marks a type as a D1 pin
pub trait D1 {
}

/// Marks a type as a D2 pin
pub trait D2 {
}

/// Marks a type as a D3 pin
pub trait D3 {
}

/// Marks a type as a D4 pin
pub trait D4 {
}

/// Marks a type as a D5 pin
pub trait D5 {
}

/// Marks a type as a D6 pin
pub trait D6 {
}

/// Marks a type as a D7 pin
pub trait D7 {
}

/// Marks a type as a D8 pin
pub trait D8 {
}

/// Marks a type as a D9 pin
pub trait D9 {
}

/// Marks a type as a D10 pin
pub trait D10 {
}

/// Marks a type as a D11 pin
pub trait D11 {
}

/// Marks a type as a D12 pin
pub trait D12 {
}

/// Marks a type as a D13 pin
pub trait D13 {
}

/// Marks a type as a D14 pin
pub trait D14 {
}

/// Marks a type as a D15 pin
pub trait D15 {
}

/// Marks a type as a D16 pin
pub trait D16 {
}

/// Marks a type as a D17 pin
pub trait D17 {
}

/// Marks a type as a D18 pin
pub trait D18 {
}

/// Marks a type as a D19 pin
pub trait D19 {
}

/// Marks a type as a D20 pin
pub trait D20 {
}

/// Marks a type as a D21 pin
pub trait D21 {
}

/// Marks a type as a D22 pin
pub trait D22 {
}

/// Marks a type as a D23 pin
pub trait D23 {
}

/// Marks a type as a D24 pin
pub trait D24 {
}

/// Marks a type as a D25 pin
pub trait D25 {
}

/// Marks a type as a D26 pin
pub trait D26 {
}

/// Marks a type as a D27 pin
pub trait D27 {
}

/// Marks a type as a D28 pin
pub trait D28 {
}

/// Marks a type as a D29 pin
pub trait D29 {
}

/// Marks a type as a D30 pin
pub trait D30 {
}

/// Marks a type as a D31 pin
pub trait D31 {
}

/// Marks a type as a DA0 pin
pub trait DA0 {
}

/// Marks a type as a DA1 pin
pub trait DA1 {
}

/// Marks a type as a DA2 pin
pub trait DA2 {
}

/// Marks a type as a DA3 pin
pub trait DA3 {
}

/// Marks a type as a DA4 pin
pub trait DA4 {
}

/// Marks a type as a DA5 pin
pub trait DA5 {
}

/// Marks a type as a DA6 pin
pub trait DA6 {
}

/// Marks a type as a DA7 pin
pub trait DA7 {
}

/// Marks a type as a DA8 pin
pub trait DA8 {
}

/// Marks a type as a DA9 pin
pub trait DA9 {
}

/// Marks a type as a DA10 pin
pub trait DA10 {
}

/// Marks a type as a DA11 pin
pub trait DA11 {
}

/// Marks a type as a DA12 pin
pub trait DA12 {
}

/// Marks a type as a DA13 pin
pub trait DA13 {
}

/// Marks a type as a DA14 pin
pub trait DA14 {
}

/// Marks a type as a DA15 pin
pub trait DA15 {
}

/// Marks a type as an INT pin
pub trait INT {
}

/// Marks a type as a NBL0 pin
pub trait NBL0 {
}

/// Marks a type as a NBL1 pin
pub trait NBL1 {
}

/// Marks a type as a NBL2 pin
pub trait NBL2 {
}

/// Marks a type as a NBL3 pin
pub trait NBL3 {
}

/// Marks a type as a NE1 pin
pub trait NE1 {
}

/// Marks a type as a NE2 pin
pub trait NE2 {
}

/// Marks a type as a NE3 pin
pub trait NE3 {
}

/// Marks a type as a NE4 pin
pub trait NE4 {
}

/// Marks a type as a NL pin
pub trait NL {
}

/// Marks a type as a NCE pin
pub trait NCE {
}

/// Marks a type as a NOE pin
pub trait NOE {
}

/// Marks a type as a NWAIT pin
pub trait NWAIT {
}

/// Marks a type as a NWE pin
pub trait NWE {
}

/// Marks a type as a SDCKE0 pin
pub trait SDCKE0 {
}

/// Marks a type as a SDCKE1 pin
pub trait SDCKE1 {
}

/// Marks a type as a SDCLK pin
pub trait SDCLK {
}

/// Marks a type as a SDNCAS pin
pub trait SDNCAS {
}

/// Marks a type as a SDNE0 pin
pub trait SDNE0 {
}

/// Marks a type as a SDNE1 pin
pub trait SDNE1 {
}

/// Marks a type as a SDNRAS pin
pub trait SDNRAS {
}

/// Marks a type as a SDNWE pin
pub trait SDNWE {
}

} // verus!
