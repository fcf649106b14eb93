//! External NAND flash through the FMC: timing derivation and controller
//! setup.
//!
//! The derivation turns the chip's asynchronous interface timings, given in
//! nanoseconds, into the controller's setup/wait/hold cycle-count fields,
//! all rounded up to whole clock periods. The controller has no field for
//! the total read or write cycle time, so the hold time is stretched until
//! the four phases together cover it.

use vstd::prelude::*;

use crate::FmcError;
use crate::FmcPeripheral;
use crate::fmc::{FmcBank, FmcOperation, FmcRegisters};
use crate::nand_device::{NandBus, NandDevice, CMD_RESET, NandBusOperation};

verus! {

/// FMC NAND Physical Interface Configuration
#[derive(Clone, Copy, Debug, PartialEq, Eq, Structural)]
pub struct NandConfiguration {
    /// Data path width in bits
    pub data_width: u8,
    /// Number of address bits used for the column address
    pub column_bits: u8,
}

/// FMC NAND Timing parameters, each in nanoseconds
#[derive(Clone, Copy, Debug, PartialEq, Eq, Structural)]
pub struct NandTiming {
    /// nCE setup time tCS
    pub nce_setup_time: i32,
    /// Data setup time tDS
    pub data_setup_time: i32,
    /// ALE hold time
    pub ale_hold_time: i32,
    /// CLE hold time
    pub cle_hold_time: i32,
    /// ALE to nRE delay
    pub ale_to_nre_delay: i32,
    /// CLE to nRE delay
    pub cle_to_nre_delay: i32,
    /// nRE pulse width tRP
    pub nre_pulse_width_ns: i32,
    /// nWE pulse width tWP
    pub nwe_pulse_width_ns: i32,
    /// Read cycle time tRC
    pub read_cycle_time_ns: i32,
    /// Write cycle time tWC
    pub write_cycle_time_ns: i32,
    /// nWE high to busy tWB
    pub nwe_high_to_busy_ns: i32,
}

/// The larger of two integers.
pub open spec fn spec_imax(a: int, b: int) -> int {
    if a >= b {
        a
    } else {
        b
    }
}

/// A time in whole clock periods, rounded up; never below zero.
pub open spec fn spec_cycles(time_ns: int, period_ns: int) -> int {
    if time_ns <= 0 {
        0
    } else {
        (time_ns + period_ns - 1) / period_ns
    }
}

/// The larger of two signed values.
fn imax64(a: i64, b: i64) -> (r: i64)
    ensures
        r == spec_imax(a as int, b as int),
{
    if a >= b {
        a
    } else {
        b
    }
}

/// A time in whole clock periods, rounded up; never below zero.
fn cycles(time_ns: i64, period_ns: u32) -> (r: u64)
    requires
        1 <= period_ns,
        time_ns < 0x2_0000_0000,
    ensures
        r == spec_cycles(time_ns as int, period_ns as int),
        r < 0x4_0000_0000,
{
    if time_ns <= 0 {
        0
    } else {
        let t: u64 = time_ns as u64;
        let p: u64 = period_ns as u64;
        let numerator: u64 = t + p - 1;
        proof {
            assert(numerator / p <= numerator) by (nonlinear_arith)
                requires
                    p >= 1,
            ;
        }
        numerator / p
    }
}

/// The PMEM/PATT/PCR cycle-count fields derived from a [`NandTiming`].
#[derive(Clone, Copy, Debug, PartialEq, Eq, Structural)]
pub struct NandTimingValues {
    /// Setup cycles before RE/WE assertion, minus one
    pub set: u32,
    /// RE/WE assertion cycles, minus one
    pub wait: u32,
    /// Hold cycles after RE/WE deassertion, stretched to cover the total
    /// cycle time
    pub hold: u32,
    /// Hold cycles in the attribute space, at least the data-space hold and
    /// enough to cover the ready/busy latency
    pub attribute_hold: u32,
    /// Bus turnaround cycles from CS assertion to data setup
    pub hiz: u32,
    /// ALE-to-read delay cycles beyond the setup phase
    pub tar: u32,
    /// CLE-to-read delay cycles beyond the setup phase
    pub tclr: u32,
    /// Data width field: 0 for 8 bits, 1 for 16
    pub pwid: u32,
}

/// The controller timing fields for a NAND chip at one clock period, or the
/// first error met. Every cycle count is rounded up to whole periods; a
/// field that reaches its reserved value rejects the combination of chip
/// and clock.
pub open spec fn spec_derive_nand_timing(
    c: NandConfiguration,
    t: NandTiming,
    period_ns: u32,
) -> Result<NandTimingValues, FmcError> {
    if period_ns == 0 {
        Err(FmcError::NandClockPeriod)
    } else {
        let p = period_ns as int;
        let t_cs = t.nce_setup_time as int;
        let t_ds = t.data_setup_time as int;
        let t_alh = t.ale_hold_time as int;
        let t_clh = t.cle_hold_time as int;
        let t_ar = t.ale_to_nre_delay as int;
        let t_clr = t.cle_to_nre_delay as int;
        let t_rp = t.nre_pulse_width_ns as int;
        let t_wp = t.nwe_pulse_width_ns as int;
        let t_rc = t.read_cycle_time_ns as int;
        let t_wc = t.write_cycle_time_ns as int;
        let t_wb = t.nwe_high_to_busy_ns as int;
        // setup time before RE/WE assertion
        let setup_time = spec_imax(t_cs, spec_imax(t_ar, t_clr));
        let set = spec_imax(spec_cycles(setup_time - t_wp, p), 1) - 1;
        if set >= 255 {  // 255 = reserved
            Err(FmcError::NandSetupRange)
        } else {
            // RE/WE assertion time (minimum = 1)
            let wait = spec_imax(spec_cycles(spec_imax(t_rp, t_wp), p), 2) - 1;
            if wait >= 255 {
                Err(FmcError::NandWaitRange)
            } else {
                // hold time after RE/WE deassertion (minimum = 1),
                // stretched to satisfy the total cycle time
                let hold_base = spec_imax(spec_cycles(spec_imax(t_alh, t_clh), p), 1);
                let cycle_time = spec_cycles(spec_imax(t_rc, t_wc), p);
                let hold = spec_imax(hold_base, cycle_time - wait - set - 2);
                if hold >= 255 {
                    Err(FmcError::NandHoldRange)
                } else {
                    // hold time to meet the ready/busy latency
                    let attribute_hold = spec_imax(
                        spec_imax(spec_cycles(t_wb, p), 2) - 1,
                        hold,
                    );
                    if attribute_hold >= 255 {
                        Err(FmcError::NandAttributeHoldRange)
                    } else {
                        // CS assertion to data setup
                        let hiz = spec_cycles(t_cs + t_wp - t_ds, p);
                        if hiz >= 255 {
                            Err(FmcError::NandHizRange)
                        } else {
                            // ALE low to RE assert
                            let tar = spec_imax(spec_cycles(t_ar, p) - set - 2, 0);
                            if tar >= 16 {
                                Err(FmcError::NandTarRange)
                            } else {
                                // CLE low to RE assert
                                let tclr = spec_imax(spec_cycles(t_clr, p) - set - 2, 0);
                                if tclr >= 16 {
                                    Err(FmcError::NandTclrRange)
                                } else {
                                    if c.data_width == 8 {
                                        Ok(
                                            NandTimingValues {
                                                set: set as u32,
                                                wait: wait as u32,
                                                hold: hold as u32,
                                                attribute_hold: attribute_hold as u32,
                                                hiz: hiz as u32,
                                                tar: tar as u32,
                                                tclr: tclr as u32,
                                                pwid: 0,
                                            },
                                        )
                                    } else if c.data_width == 16 {
                                        Ok(
                                            NandTimingValues {
                                                set: set as u32,
                                                wait: wait as u32,
                                                hold: hold as u32,
                                                attribute_hold: attribute_hold as u32,
                                                hiz: hiz as u32,
                                                tar: tar as u32,
                                                tclr: tclr as u32,
                                                pwid: 1,
                                            },
                                        )
                                    } else {
                                        Err(FmcError::NandDataWidth)
                                    }
                                }
                            }
                        }
                    }
                }
            }
        }
    }
}

/// Derive the controller timing fields for a NAND chip at one clock period.
/// Timing calculations follow the controller's application note for
/// asynchronous NAND interfaces.
pub fn derive_nand_timing(
    config: &NandConfiguration,
    timing: &NandTiming,
    period_ns: u32,
) -> (r: Result<NandTimingValues, FmcError>)
    ensures
        r == spec_derive_nand_timing(*config, *timing, period_ns),
{
    if period_ns == 0 {
        return Err(FmcError::NandClockPeriod);
    }
    let t_cs: i64 = timing.nce_setup_time as i64;
    let t_ds: i64 = timing.data_setup_time as i64;
    let t_alh: i64 = timing.ale_hold_time as i64;
    let t_clh: i64 = timing.cle_hold_time as i64;
    let t_ar: i64 = timing.ale_to_nre_delay as i64;
    let t_clr: i64 = timing.cle_to_nre_delay as i64;
    let t_rp: i64 = timing.nre_pulse_width_ns as i64;
    let t_wp: i64 = timing.nwe_pulse_width_ns as i64;
    let t_rc: i64 = timing.read_cycle_time_ns as i64;
    let t_wc: i64 = timing.write_cycle_time_ns as i64;
    let t_wb: i64 = timing.nwe_high_to_busy_ns as i64;

    // setup time before RE/WE assertion
    let setup_time: i64 = imax64(t_cs, imax64(t_ar, t_clr));
    let set_cycles: u64 = cycles(setup_time - t_wp, period_ns);
    let set: u64 = if set_cycles < 1 {
        0
    } else {
        set_cycles - 1
    };
    if set >= 255 {  // 255 = reserved
        return Err(FmcError::NandSetupRange);
    }

    // RE/WE assertion time (minimum = 1)
    let wait_cycles: u64 = cycles(imax64(t_rp, t_wp), period_ns);
    let wait: u64 = if wait_cycles < 2 {
        1
    } else {
        wait_cycles - 1
    };
    if wait >= 255 {
        return Err(FmcError::NandWaitRange);
    }

    // hold time after RE/WE deassertion (minimum = 1)
    let hold_cycles: u64 = cycles(imax64(t_alh, t_clh), period_ns);
    let hold_base: u64 = if hold_cycles < 1 {
        1
    } else {
        hold_cycles
    };
    // satisfy total cycle time
    let cycle_time: u64 = cycles(imax64(t_rc, t_wc), period_ns);
    let mut hold: u64 = hold_base;
    while wait + 1 + hold + set + 1 < cycle_time
        invariant
            set < 255,
            wait < 255,
            hold_base <= hold,
            hold_base < 0x4_0000_0000,
            cycle_time < 0x4_0000_0000,
            hold as int <= spec_imax(
                hold_base as int,
                cycle_time as int - wait as int - set as int - 2,
            ),
        decreases cycle_time as int - hold as int,
    {
        hold = hold + 1;
    }
    proof {
        assert(hold as int == spec_imax(
            hold_base as int,
            cycle_time as int - wait as int - set as int - 2,
        ));
    }
    if hold >= 255 {
        return Err(FmcError::NandHoldRange);
    }

    // hold time to meet the ready/busy latency
    let busy_cycles: u64 = cycles(t_wb, period_ns);
    let busy_hold: u64 = if busy_cycles < 2 {
        1
    } else {
        busy_cycles - 1
    };
    let attribute_hold: u64 = if busy_hold < hold {
        hold
    } else {
        busy_hold
    };
    if attribute_hold >= 255 {
        return Err(FmcError::NandAttributeHoldRange);
    }

    // CS assertion to data setup
    let hiz: u64 = cycles(t_cs + t_wp - t_ds, period_ns);
    if hiz >= 255 {
        return Err(FmcError::NandHizRange);
    }

    // ALE low to RE assert
    let ale_to_nre: u64 = cycles(t_ar, period_ns);
    let tar: u64 = if ale_to_nre < set + 2 {
        0
    } else {
        ale_to_nre - set - 2
    };
    if tar >= 16 {
        return Err(FmcError::NandTarRange);
    }

    // CLE low to RE assert
    let clr_to_nre: u64 = cycles(t_clr, period_ns);
    let tclr: u64 = if clr_to_nre < set + 2 {
        0
    } else {
        clr_to_nre - set - 2
    };
    if tclr >= 16 {
        return Err(FmcError::NandTclrRange);
    }

    let pwid: u32 = match config.data_width {
        8 => 0,
        16 => 1,
        _ => {
            return Err(FmcError::NandDataWidth);
        },
    };

    Ok(
        NandTimingValues {
            set: set as u32,
            wait: wait as u32,
            hold: hold as u32,
            attribute_hold: attribute_hold as u32,
            hiz: hiz as u32,
            tar: tar as u32,
            tclr: tclr as u32,
            pwid,
        },
    )
}

/// The four register writes that program one NAND timing derivation: the
/// PCR control fields, the common and attribute space timings, and the
/// bank enable.
pub open spec fn spec_nand_features_ops(v: NandTimingValues) -> Seq<FmcOperation> {
    seq![
        FmcOperation::ModifyPcr {
            tar: v.tar,
            tclr: v.tclr,
            eccps: 1,  // 512-byte ECC page size
            eccen: 0,  // ECC computation disabled
            pwid: v.pwid,
            ptyp: 1,  // NAND flash
            pwaiten: 1,  // wait feature enabled
        },
        FmcOperation::ModifyPmem {
            memhiz: v.hiz,
            memhold: v.hold,
            memwait: v.wait,
            memset: v.set,
        },
        FmcOperation::ModifyPatt {
            atthiz: v.hiz,
            atthold: v.attribute_hold,
            attwait: v.wait,
            attset: v.set,
        },
        FmcOperation::EnableNandBank,
    ]
}

/// The whole recorded program of one NAND initialisation, or the first
/// error met: the clock period from the source clock, the timing fields
/// from the chip's parameters, then the four register writes and the
/// one-microsecond settling wait after the controller is enabled.
pub open spec fn spec_nand_program(
    c: NandConfiguration,
    t: NandTiming,
    source_clock_hz: u32,
) -> Result<Seq<FmcOperation>, FmcError> {
    if source_clock_hz == 0 {
        Err(FmcError::NandClockPeriod)
    } else {
        let period_ns = (1_000_000_000int / source_clock_hz as int) as u32;
        match spec_derive_nand_timing(c, t, period_ns) {
            Err(e) => Err(e),
            Ok(v) => Ok(
                spec_nand_features_ops(v) + seq![FmcOperation::DelayMicroseconds { us: 1 }],
            ),
        }
    }
}

/// Represents a model of NAND chip. The descriptors are fixed per chip
/// model; implementations return the same values on every call.
pub trait NandChip {
    /// NAND controller configuration
    fn config(&self) -> NandConfiguration;

    /// Timing parameters
    fn timing(&self) -> NandTiming;
}

/// Set of pins for a NAND
pub trait PinsNand {
    /// Number of data bus pins
    spec fn spec_n_data(&self) -> usize;

    /// Number of data bus pins
    fn n_data(&self) -> (r: usize)
        ensures
            r == self.spec_n_data(),
    ;
}

/// A construction-time record of the pins wired to the NAND bank: how many
/// data lines the board provides.
#[derive(Clone, Copy, Debug)]
pub struct NandPinRecord {
    /// The provided data bus lines
    pub data_lines: usize,
}

impl PinsNand for NandPinRecord {
    open spec fn spec_n_data(&self) -> usize {
        self.data_lines
    }

    fn n_data(&self) -> usize {
        self.data_lines
    }
}

/// FMC Peripheral specialized as a NAND Controller. Not yet initialized.
pub struct Nand<FMC, IC> {
    /// Parameters for the NAND IC
    chip: IC,
    /// The chip's interface configuration, as its descriptor returned it
    config: NandConfiguration,
    /// The chip's timing parameters, as its descriptor returned it
    timing: NandTiming,
    /// FMC peripheral
    fmc: FMC,
    /// Register access
    regs: FmcRegisters,
}

impl<IC: NandChip, FMC: FmcPeripheral> Nand<FMC, IC> {
    /// The chip configuration this controller was constructed with.
    pub closed spec fn spec_config(&self) -> NandConfiguration {
        self.config
    }

    /// The chip timing this controller was constructed with.
    pub closed spec fn spec_timing(&self) -> NandTiming {
        self.timing
    }

    /// The peripheral this controller owns.
    pub closed spec fn spec_fmc(&self) -> FMC {
        self.fmc
    }

    /// The operations recorded so far.
    pub closed spec fn spec_operations(&self) -> Seq<FmcOperation> {
        self.regs@
    }

    /// The operations recorded so far, oldest first.
    pub fn operations(&self) -> (r: &Vec<FmcOperation>)
        ensures
            r@ == self.spec_operations(),
    {
        self.regs.operations()
    }

    /// The chip configuration this controller was constructed with.
    pub fn config(&self) -> (r: NandConfiguration)
        ensures
            r == self.spec_config(),
    {
        self.config
    }

    /// New NAND instance
    ///
    /// `pins` must be a record of the pins connecting to a NAND on the FMC
    /// controller. Fails if the pin count differs from the data bus width of
    /// the NAND device.
    pub fn new<PINS: PinsNand>(fmc: FMC, pins: PINS, chip: IC) -> (r: Result<Self, FmcError>)
        ensures
            match r {
                Ok(n) => {
                    &&& n.spec_config().data_width as usize == pins.spec_n_data()
                    &&& n.spec_operations() == Seq::<FmcOperation>::empty()
                    &&& n.spec_fmc() == fmc
                },
                Err(e) => e == FmcError::DataPins,
            },
    {
        let config = chip.config();
        let timing = chip.timing();
        if pins.n_data() != config.data_width as usize {
            return Err(FmcError::DataPins);
        }
        Ok(Nand { chip, config, timing, fmc, regs: FmcRegisters::new() })
    }

    /// New NAND instance
    ///
    /// The pins are not checked against the requirements for the NAND chip,
    /// so the caller attests that the wired pins match its data bus width.
    pub fn new_unchecked(fmc: FMC, chip: IC) -> (r: Self)
        ensures
            r.spec_operations() == Seq::<FmcOperation>::empty(),
            r.spec_fmc() == fmc,
    {
        let config = chip.config();
        let timing = chip.timing();
        Nand { chip, config, timing, fmc, regs: FmcRegisters::new() }
    }

    /// Program memory device features and timings: validate the whole
    /// timing derivation, then record the four feature and timing register
    /// writes. On failure nothing is recorded.
    pub fn set_features_timings(
        &mut self,
        config: NandConfiguration,
        timing: NandTiming,
        period_ns: u32,
    ) -> (r: Result<(), FmcError>)
        ensures
            final(self).spec_config() == old(self).spec_config(),
            final(self).spec_timing() == old(self).spec_timing(),
            final(self).spec_fmc() == old(self).spec_fmc(),
            match spec_derive_nand_timing(config, timing, period_ns) {
                Ok(v) => r is Ok && final(self).spec_operations() == old(self).spec_operations()
                    + spec_nand_features_ops(v),
                Err(e) => r == Err::<(), FmcError>(e) && final(self).spec_operations() == old(
                    self,
                ).spec_operations(),
            },
    {
        let v = match derive_nand_timing(&config, &timing, period_ns) {
            Ok(v) => v,
            Err(e) => {
                return Err(e);
            },
        };
        self.regs.record(
            FmcOperation::ModifyPcr {
                tar: v.tar,
                tclr: v.tclr,
                eccps: 1,  // 512-byte ECC page size
                eccen: 0,  // ECC computation disabled
                pwid: v.pwid,
                ptyp: 1,  // NAND flash
                pwaiten: 1,  // wait feature enabled
            },
        );
        self.regs.record(
            FmcOperation::ModifyPmem {
                memhiz: v.hiz,
                memhold: v.hold,
                memwait: v.wait,
                memset: v.set,
            },
        );
        self.regs.record(
            FmcOperation::ModifyPatt {
                atthiz: v.hiz,
                atthold: v.attribute_hold,
                attwait: v.wait,
                attset: v.set,
            },
        );
        self.regs.record(FmcOperation::EnableNandBank);
        proof {
            assert(self.spec_operations() =~= old(self).spec_operations()
                + spec_nand_features_ops(v));
        }
        Ok(())
    }

    /// Initialise NAND instance: derive every register value, and on
    /// success record the feature and timing writes and the one-microsecond
    /// settling wait, then issue the mandatory device reset over `bus` and
    /// hand back the device.
    ///
    /// The NAND flash always sits behind FMC bank 3.
    pub fn init<B: NandBus>(&mut self, bus: B) -> (r: Result<NandDevice<B>, FmcError>)
        requires
            old(self).spec_config().column_bits < 32,
        ensures
            final(self).spec_config() == old(self).spec_config(),
            final(self).spec_timing() == old(self).spec_timing(),
            match spec_nand_program(
                old(self).spec_config(),
                old(self).spec_timing(),
                old(self).spec_fmc().spec_source_clock_hz(),
            ) {
                Ok(ops) => {
                    &&& r is Ok
                    &&& final(self).spec_operations() == old(self).spec_operations() + ops
                    &&& ({
                        let d = r->Ok_0;
                        &&& d.spec_common_data() == FmcBank::Bank3.spec_address()
                        &&& d.spec_common_command() == 0x8001_0000u32
                        &&& d.spec_common_address() == 0x8002_0000u32
                        &&& d.spec_attribute_command() == 0x8801_0000u32
                        &&& d.spec_column_bits() == Some(
                            old(self).spec_config().column_bits as usize,
                        )
                        &&& d.wf()
                        &&& d.spec_bus_log() == bus.bus_log().push(
                            NandBusOperation::Write { address: 0x8001_0000u32, value: CMD_RESET },
                        )
                    })
                },
                Err(e) => r is Err && r->Err_0 == e && final(self).spec_operations() == old(
                    self,
                ).spec_operations(),
            },
    {
        // calculate clock period, round down
        let source_clock_hz = self.fmc.source_clock_hz();
        if source_clock_hz == 0 {
            return Err(FmcError::NandClockPeriod);
        }
        let period_ns: u32 = 1_000_000_000u32 / source_clock_hz;
        let config = self.config;
        let timing = self.timing;

        // validate the whole derivation before recording any operation
        match derive_nand_timing(&config, &timing, period_ns) {
            Ok(_) => (),
            Err(e) => {
                return Err(e);
            },
        }

        // enable memory controller AHB register access
        self.fmc.enable();

        // device features and timing
        match self.set_features_timings(config, timing, period_ns) {
            Ok(()) => (),
            Err(e) => {
                return Err(e);
            },
        }

        // enable memory controller, then let it settle
        self.fmc.memory_controller_enable();
        self.regs.record(FmcOperation::DelayMicroseconds { us: 1 });

        proof {
            let program = spec_nand_program(
                old(self).spec_config(),
                old(self).spec_timing(),
                old(self).spec_fmc().spec_source_clock_hz(),
            );
            assert(self.spec_operations() =~= old(self).spec_operations() + program->Ok_0);
        }

        // create the device; NAND flash is always on Bank 3
        let base = FmcBank::Bank3.ptr();
        let device = NandDevice::init(bus, base, config.column_bits as usize);
        Ok(device)
    }
}

} // verus!
