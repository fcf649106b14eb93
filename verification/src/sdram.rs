//! External SDRAM: configuration validation, timing derivation, and the
//! power-up command sequence.
//!
//! The derivations turn a chip's datasheet parameters (nanosecond delays and
//! address widths) plus the live source-clock frequency into the exact
//! register field values of the controller, and [`Sdram::init`] records the
//! strict command sequence that brings the device from power-up to ready.

use vstd::prelude::*;

use crate::FmcError;
use crate::FmcPeripheral;
use crate::fmc::{AddressPinSet, FmcBank, FmcOperation, FmcRegisters};

verus! {

/// FMC SDRAM Configuration Structure definition
#[derive(Clone, Copy, Debug, PartialEq, Eq, Structural)]
pub struct FmcSdramConfiguration {
    /// Number of bits of column address
    pub column_bits: u8,
    /// Number of bits of row address
    pub row_bits: u8,
    /// Memory device width
    pub memory_data_width: u8,
    /// Number of the device's internal banks
    pub internal_banks: u8,
    /// SDRAM CAS latency in number of memory clock cycles
    pub cas_latency: u8,
    /// Enables the SDRAM device to be accessed in write mode
    pub write_protection: bool,
    /// This bit enable the SDRAM controller to anticipate the next read
    pub read_burst: bool,
    /// Delay in system clock cycles on read data path
    pub read_pipe_delay_cycles: u8,
}

impl FmcSdramConfiguration {
    /// Every numeric field lies in the range the controller supports.
    pub open spec fn spec_valid(&self) -> bool {
        &&& 1 <= self.cas_latency <= 3
        &&& 11 <= self.row_bits <= 13
        &&& 8 <= self.column_bits <= 11
        &&& self.read_pipe_delay_cycles <= 2
        &&& (self.internal_banks == 2 || self.internal_banks == 4)
        &&& (self.memory_data_width == 8 || self.memory_data_width == 16
            || self.memory_data_width == 32)
    }
}

/// FMC SDRAM Timing parameters structure definition
#[derive(Clone, Copy, Debug, PartialEq, Eq, Structural)]
pub struct FmcSdramTiming {
    /// Time between applying a valid clock and any command other than
    /// COMMAND INHIBIT or NOP
    pub startup_delay_ns: u32,
    /// Maximum SD clock frequency to make timing
    pub max_sd_clock_hz: u32,
    /// Period between refresh cycles in nanoseconds
    pub refresh_period_ns: u32,
    /// Delay between a LOAD MODE register command and an ACTIVATE command
    pub mode_register_to_active: u32,
    /// Delay from releasing self refresh to next command
    pub exit_self_refresh: u32,
    /// Delay between an ACTIVATE and a PRECHARGE command
    pub active_to_precharge: u32,
    /// Auto refresh command duration
    pub row_cycle: u32,
    /// Delay between a PRECHARGE command and another command
    pub row_precharge: u32,
    /// Delay between an ACTIVATE command and READ/WRITE command
    pub row_to_column: u32,
}

/// The SDCR register fields derived from an [`FmcSdramConfiguration`],
/// each already encoded for its hardware field.
#[derive(Clone, Copy, Debug, PartialEq, Eq, Structural)]
pub struct SdcrValues {
    /// Read pipe delay in system clock cycles
    pub rpipe: u32,
    /// Read burst enable
    pub rburst: u32,
    /// SD clock divider
    pub sdclk: u32,
    /// Write protection
    pub wp: u32,
    /// CAS latency in cycles
    pub cas: u32,
    /// Internal bank count: 0 for two banks, 1 for four
    pub nb: u32,
    /// Data width: 0 for 8 bits, 1 for 16, 2 for 32
    pub mwid: u32,
    /// Row bits above the minimum of 11
    pub nr: u32,
    /// Column bits above the minimum of 8
    pub nc: u32,
}

impl SdcrValues {
    /// Every field fits the width of its hardware register field.
    pub open spec fn spec_in_width(&self) -> bool {
        &&& self.rpipe <= 3
        &&& self.rburst <= 1
        &&& self.sdclk <= 3
        &&& self.wp <= 1
        &&& self.cas <= 3
        &&& self.nb <= 1
        &&& self.mwid <= 3
        &&& self.nr <= 3
        &&& self.nc <= 3
    }
}

/// The SDTR register fields derived from an [`FmcSdramTiming`]. The hardware
/// encodes every field as `cycles - 1`.
#[derive(Clone, Copy, Debug, PartialEq, Eq, Structural)]
pub struct SdtrValues {
    /// Row cycle delay, minus one
    pub trc: u32,
    /// Row precharge delay, minus one
    pub trp: u32,
    /// Row to column delay, minus one
    pub trcd: u32,
    /// Write recovery delay, minus one
    pub twr: u32,
    /// Self refresh time, minus one
    pub tras: u32,
    /// Exit self refresh delay, minus one
    pub txsr: u32,
    /// Load mode register to active delay, minus one
    pub tmrd: u32,
}

/// The SDCR fields for a configuration, or the error that rejects it. The
/// checks run in a fixed order, so the reported error is the first violation.
pub open spec fn spec_derive_sdcr(c: FmcSdramConfiguration, sd_clock_divide: u32) -> Result<
    SdcrValues,
    FmcError,
> {
    if !(1 <= c.cas_latency <= 3) {
        Err(FmcError::CasLatencyRange)
    } else if !(11 <= c.row_bits <= 13) {
        Err(FmcError::RowBitsRange)
    } else if !(8 <= c.column_bits <= 11) {
        Err(FmcError::ColumnBitsRange)
    } else if !(c.read_pipe_delay_cycles <= 2) {
        Err(FmcError::ReadPipeDelayRange)
    } else if !(c.internal_banks == 2 || c.internal_banks == 4) {
        Err(FmcError::InternalBankCount)
    } else if !(c.memory_data_width == 8 || c.memory_data_width == 16
        || c.memory_data_width == 32) {
        Err(FmcError::MemoryDataWidth)
    } else {
        Ok(
            SdcrValues {
                rpipe: c.read_pipe_delay_cycles as u32,
                rburst: if c.read_burst { 1 } else { 0 },
                sdclk: sd_clock_divide,
                wp: if c.write_protection { 1 } else { 0 },
                cas: c.cas_latency as u32,
                nb: if c.internal_banks == 2 { 0 } else { 1 },
                mwid: if c.memory_data_width == 8 {
                    0
                } else if c.memory_data_width == 16 {
                    1
                } else {
                    2
                },
                nr: (c.row_bits - 11) as u32,
                nc: (c.column_bits - 8) as u32,
            },
        )
    }
}

/// Derive the SDCR register fields from a configuration. `sd_clock_divide`
/// is written to the SDCLK field unchecked, as the divider is derived and
/// bounded separately by [`derive_clock`].
pub fn derive_sdcr(c: &FmcSdramConfiguration, sd_clock_divide: u32) -> (r: Result<
    SdcrValues,
    FmcError,
>)
    ensures
        r == spec_derive_sdcr(*c, sd_clock_divide),
{
    if !(1 <= c.cas_latency && c.cas_latency <= 3) {
        Err(FmcError::CasLatencyRange)
    } else if !(11 <= c.row_bits && c.row_bits <= 13) {
        Err(FmcError::RowBitsRange)
    } else if !(8 <= c.column_bits && c.column_bits <= 11) {
        Err(FmcError::ColumnBitsRange)
    } else if !(c.read_pipe_delay_cycles <= 2) {
        Err(FmcError::ReadPipeDelayRange)
    } else if !(c.internal_banks == 2 || c.internal_banks == 4) {
        Err(FmcError::InternalBankCount)
    } else if !(c.memory_data_width == 8 || c.memory_data_width == 16
        || c.memory_data_width == 32) {
        Err(FmcError::MemoryDataWidth)
    } else {
        Ok(
            SdcrValues {
                rpipe: c.read_pipe_delay_cycles as u32,
                rburst: if c.read_burst { 1 } else { 0 },
                sdclk: sd_clock_divide,
                wp: if c.write_protection { 1 } else { 0 },
                cas: c.cas_latency as u32,
                nb: if c.internal_banks == 2 { 0 } else { 1 },
                mwid: if c.memory_data_width == 8 {
                    0
                } else if c.memory_data_width == 16 {
                    1
                } else {
                    2
                },
                nr: (c.row_bits - 11) as u32,
                nc: (c.column_bits - 8) as u32,
            },
        )
    }
}

/// The write recovery cycle count: the larger of the two independent lower
/// bounds the datasheet implies, one from the self-refresh time and one from
/// the full row cycle. A subtraction that would go below zero rejects the
/// timing set instead of wrapping.
pub open spec fn spec_write_recovery(t: FmcSdramTiming) -> Result<u32, FmcError> {
    if t.active_to_precharge < t.row_to_column {
        Err(FmcError::TimingUnderflow)
    } else if t.row_cycle < t.row_to_column + t.row_precharge {
        Err(FmcError::TimingUnderflow)
    } else {
        let from_self_refresh = t.active_to_precharge - t.row_to_column;
        let from_row_cycle = t.row_cycle - t.row_to_column - t.row_precharge;
        if from_self_refresh >= from_row_cycle {
            Ok(from_self_refresh as u32)
        } else {
            Ok(from_row_cycle as u32)
        }
    }
}

/// Derive the write recovery cycle count from the active-to-precharge,
/// row-to-column, row-cycle and row-precharge times.
pub fn write_recovery(t: &FmcSdramTiming) -> (r: Result<u32, FmcError>)
    ensures
        r == spec_write_recovery(*t),
{
    if t.active_to_precharge < t.row_to_column {
        Err(FmcError::TimingUnderflow)
    } else if t.row_cycle < t.row_to_column || t.row_cycle - t.row_to_column < t.row_precharge {
        Err(FmcError::TimingUnderflow)
    } else {
        let from_self_refresh: u32 = t.active_to_precharge - t.row_to_column;
        let from_row_cycle: u32 = t.row_cycle - t.row_to_column - t.row_precharge;
        if from_self_refresh >= from_row_cycle {
            Ok(from_self_refresh)
        } else {
            Ok(from_row_cycle)
        }
    }
}

/// The SDTR register fields for a timing set, or the error that rejects it.
/// Every hardware field encodes `cycles - 1`, so each cycle count must be at
/// least one.
pub open spec fn spec_derive_sdtr(t: FmcSdramTiming) -> Result<SdtrValues, FmcError> {
    match spec_write_recovery(t) {
        Err(e) => Err(e),
        Ok(wr) => if wr < 1 || t.row_cycle < 1 || t.row_precharge < 1 || t.row_to_column < 1
            || t.active_to_precharge < 1 || t.exit_self_refresh < 1
            || t.mode_register_to_active < 1 {
            Err(FmcError::TimingUnderflow)
        } else {
            Ok(
                SdtrValues {
                    trc: (t.row_cycle - 1) as u32,
                    trp: (t.row_precharge - 1) as u32,
                    trcd: (t.row_to_column - 1) as u32,
                    twr: (wr - 1) as u32,
                    tras: (t.active_to_precharge - 1) as u32,
                    txsr: (t.exit_self_refresh - 1) as u32,
                    tmrd: (t.mode_register_to_active - 1) as u32,
                },
            )
        },
    }
}

/// Derive the SDTR register fields from a timing set.
pub fn derive_sdtr(t: &FmcSdramTiming) -> (r: Result<SdtrValues, FmcError>)
    ensures
        r == spec_derive_sdtr(*t),
{
    match write_recovery(t) {
        Err(e) => Err(e),
        Ok(wr) => if wr < 1 || t.row_cycle < 1 || t.row_precharge < 1 || t.row_to_column < 1
            || t.active_to_precharge < 1 || t.exit_self_refresh < 1
            || t.mode_register_to_active < 1 {
            Err(FmcError::TimingUnderflow)
        } else {
            Ok(
                SdtrValues {
                    trc: t.row_cycle - 1,
                    trp: t.row_precharge - 1,
                    trcd: t.row_to_column - 1,
                    twr: wr - 1,
                    tras: t.active_to_precharge - 1,
                    txsr: t.exit_self_refresh - 1,
                    tmrd: t.mode_register_to_active - 1,
                },
            )
        },
    }
}

/// The SD clock: the smallest divider of at least 2 that brings the source
/// clock within the chip's limit, capped at the hardware maximum of 3.
/// Returns `(sd_clock_hz, divide)`.
pub open spec fn spec_derive_clock(source_clock_hz: u32, max_sd_clock_hz: u32) -> Result<
    (u32, u32),
    FmcError,
> {
    if max_sd_clock_hz == 0 {
        Err(FmcError::ClockDivideRange)
    } else {
        let ceil_div = (source_clock_hz + max_sd_clock_hz - 1) as int / max_sd_clock_hz as int;
        let divide = if ceil_div < 2 {
            2int
        } else {
            ceil_div
        };
        if divide > 3 {
            Err(FmcError::ClockDivideRange)
        } else {
            Ok(((source_clock_hz as int / divide) as u32, divide as u32))
        }
    }
}

/// Derive the SD clock frequency and divider from the source clock and the
/// chip's maximum SD clock. Returns `(sd_clock_hz, divide)`.
pub fn derive_clock(source_clock_hz: u32, max_sd_clock_hz: u32) -> (r: Result<(u32, u32), FmcError>)
    ensures
        r == spec_derive_clock(source_clock_hz, max_sd_clock_hz),
{
    if max_sd_clock_hz == 0 {
        return Err(FmcError::ClockDivideRange);
    }
    let numerator: u64 = source_clock_hz as u64 + max_sd_clock_hz as u64 - 1;
    let mut divide: u64 = numerator / (max_sd_clock_hz as u64);
    if divide < 2 {
        divide = 2;
    }
    if divide > 3 {
        return Err(FmcError::ClockDivideRange);
    }
    let d: u32 = divide as u32;
    Ok((source_clock_hz / d, d))
}

/// The refresh counter: the refresh period in SD clock ticks, less a fixed
/// margin of 20 for the controller's refresh-request latency. The result
/// must fit the 13-bit hardware field and stay at or above 41.
pub open spec fn spec_refresh_counter(refresh_period_ns: u32, sd_clock_hz: u32) -> Result<
    u32,
    FmcError,
> {
    let count = (refresh_period_ns * sd_clock_hz) / 1_000_000_000 - 20;
    if count < 41 || count >= 8192 {
        Err(FmcError::RefreshCounterRange)
    } else {
        Ok(count as u32)
    }
}

/// Derive the refresh counter from the refresh period and the SD clock.
pub fn derive_refresh_counter(refresh_period_ns: u32, sd_clock_hz: u32) -> (r: Result<
    u32,
    FmcError,
>)
    ensures
        r == spec_refresh_counter(refresh_period_ns, sd_clock_hz),
{
    proof {
        assert((refresh_period_ns as u64) * (sd_clock_hz as u64) <= 0xFFFF_FFFFu64 * 0xFFFF_FFFFu64)
            by (nonlinear_arith)
            requires
                refresh_period_ns <= 0xFFFF_FFFFu32,
                sd_clock_hz <= 0xFFFF_FFFFu32,
        ;
    }
    let product: u64 = (refresh_period_ns as u64) * (sd_clock_hz as u64);
    let ticks: u64 = product / 1_000_000_000;
    if ticks < 61 {
        return Err(FmcError::RefreshCounterRange);
    }
    let count: u64 = ticks - 20;
    if count >= 8192 {
        return Err(FmcError::RefreshCounterRange);
    }
    Ok(count as u32)
}

/// The SDRAM power-up settling time in whole microseconds, rounded up from
/// the chip's startup delay in nanoseconds.
pub open spec fn spec_startup_delay_us(startup_delay_ns: u32) -> u32 {
    ((startup_delay_ns + 999) / 1000) as u32
}

/// The power-up settling time in whole microseconds, rounded up.
pub fn startup_delay_us(startup_delay_ns: u32) -> (r: u32)
    ensures
        r == spec_startup_delay_us(startup_delay_ns),
{
    let us: u64 = (startup_delay_ns as u64 + 999) / 1000;
    us as u32
}

/// Target bank for SDRAM commands
#[derive(Clone, Copy, Debug, PartialEq, Eq, Structural)]
pub enum SdramTargetBank {
    /// Targeting the 1st SDRAM bank
    Bank1,
    /// Targeting the 2nd SDRAM bank
    Bank2,
    /// Targeting both SDRAM banks
    Both,
}

impl SdramTargetBank {
    /// The bank with the given number, if there is one.
    pub fn from_number(n: u32) -> (r: Option<SdramTargetBank>)
        ensures
            r == (if n == 1 {
                Some(SdramTargetBank::Bank1)
            } else if n == 2 {
                Some(SdramTargetBank::Bank2)
            } else {
                None::<SdramTargetBank>
            }),
    {
        match n {
            1 => Some(SdramTargetBank::Bank1),
            2 => Some(SdramTargetBank::Bank2),
            _ => None,
        }
    }
}

/// The discrete settings packed into an SDRAM mode register value, per the
/// datasheet bit layout: burst length in bits 0 to 2, burst type in bit 3,
/// CAS latency in bits 4 to 6, operating mode in bits 7 and 8, and write
/// burst mode in bit 9.
#[derive(Clone, Copy, Debug, PartialEq, Eq, Structural)]
pub struct SdramModeRegister {
    /// Burst length field (three bits)
    pub burst_length: u8,
    /// Burst type: sequential when false, interleaved when true
    pub burst_type_interleaved: bool,
    /// CAS latency field (three bits)
    pub cas_latency: u8,
    /// Operating mode field (two bits)
    pub operating_mode: u8,
    /// Write burst mode: programmed length when false, single when true
    pub write_burst_single: bool,
}

impl SdramModeRegister {
    /// Every field fits its bit width.
    pub open spec fn wf(&self) -> bool {
        &&& self.burst_length < 8
        &&& self.cas_latency < 8
        &&& self.operating_mode < 4
    }
}

/// The mode register bit pattern that encodes the given settings.
pub open spec fn spec_encode_mode_register(m: SdramModeRegister) -> u16 {
    (m.burst_length as u16) | ((if m.burst_type_interleaved {
        1u16
    } else {
        0u16
    }) << 3) | ((m.cas_latency as u16) << 4) | ((m.operating_mode as u16) << 7) | ((
    if m.write_burst_single {
        1u16
    } else {
        0u16
    }) << 9)
}

/// The settings a mode register bit pattern carries.
pub open spec fn spec_decode_mode_register(bits: u16) -> SdramModeRegister {
    SdramModeRegister {
        burst_length: (bits & 7) as u8,
        burst_type_interleaved: (bits >> 3) & 1 == 1,
        cas_latency: ((bits >> 4) & 7) as u8,
        operating_mode: ((bits >> 7) & 3) as u8,
        write_burst_single: (bits >> 9) & 1 == 1,
    }
}

/// Encode mode register settings into their bit pattern.
pub fn encode_mode_register(m: &SdramModeRegister) -> (r: u16)
    ensures
        r == spec_encode_mode_register(*m),
{
    (m.burst_length as u16) | ((if m.burst_type_interleaved {
        1u16
    } else {
        0u16
    }) << 3u16) | ((m.cas_latency as u16) << 4u16) | ((m.operating_mode as u16) << 7u16) | ((
    if m.write_burst_single {
        1u16
    } else {
        0u16
    }) << 9u16)
}

/// Decode a mode register bit pattern into its settings.
pub fn decode_mode_register(bits: u16) -> (r: SdramModeRegister)
    ensures
        r == spec_decode_mode_register(bits),
{
    SdramModeRegister {
        burst_length: (bits & 7) as u8,
        burst_type_interleaved: (bits >> 3u16) & 1 == 1,
        cas_latency: ((bits >> 4u16) & 7) as u8,
        operating_mode: ((bits >> 7u16) & 3) as u8,
        write_burst_single: (bits >> 9u16) & 1 == 1,
    }
}

/// Encoding mode register settings and decoding the resulting bit pattern
/// recovers the original settings, whenever every field fits its bit width.
pub proof fn lemma_mode_register_round_trip(m: SdramModeRegister)
    requires
        m.wf(),
    ensures
        spec_decode_mode_register(spec_encode_mode_register(m)) == m,
{
    let bl = m.burst_length;
    let bt: u16 = if m.burst_type_interleaved {
        1
    } else {
        0
    };
    let cas = m.cas_latency;
    let om = m.operating_mode;
    let wb: u16 = if m.write_burst_single {
        1
    } else {
        0
    };
    let bits = spec_encode_mode_register(m);
    assert(bits == (bl as u16) | (bt << 3) | ((cas as u16) << 4) | ((om as u16) << 7) | (wb << 9));
    assert((((bl as u16) | (bt << 3) | ((cas as u16) << 4) | ((om as u16) << 7) | (wb << 9)) & 7)
        as u8 == bl) by (bit_vector)
        requires
            bl < 8,
            cas < 8,
            om < 4,
            bt <= 1,
            wb <= 1,
    ;
    assert(((((bl as u16) | (bt << 3) | ((cas as u16) << 4) | ((om as u16) << 7) | (wb << 9)) >> 3)
        & 1 == 1) == (bt == 1)) by (bit_vector)
        requires
            bl < 8,
            cas < 8,
            om < 4,
            bt <= 1,
            wb <= 1,
    ;
    assert(((((bl as u16) | (bt << 3) | ((cas as u16) << 4) | ((om as u16) << 7) | (wb << 9)) >> 4)
        & 7) as u8 == cas) by (bit_vector)
        requires
            bl < 8,
            cas < 8,
            om < 4,
            bt <= 1,
            wb <= 1,
    ;
    assert(((((bl as u16) | (bt << 3) | ((cas as u16) << 4) | ((om as u16) << 7) | (wb << 9)) >> 7)
        & 3) as u8 == om) by (bit_vector)
        requires
            bl < 8,
            cas < 8,
            om < 4,
            bt <= 1,
            wb <= 1,
    ;
    assert(((((bl as u16) | (bt << 3) | ((cas as u16) << 4) | ((om as u16) << 7) | (wb << 9)) >> 9)
        & 1 == 1) == (wb == 1)) by (bit_vector)
        requires
            bl < 8,
            cas < 8,
            om < 4,
            bt <= 1,
            wb <= 1,
    ;
}

/// Every configuration whose fields lie in the supported ranges is accepted,
/// and each derived SDCR field fits the width of its hardware register
/// field, for either legal clock divider.
pub proof fn lemma_valid_configuration_accepted(c: FmcSdramConfiguration, sd_clock_divide: u32)
    requires
        c.spec_valid(),
        sd_clock_divide == 2 || sd_clock_divide == 3,
    ensures
        spec_derive_sdcr(c, sd_clock_divide) is Ok,
        spec_derive_sdcr(c, sd_clock_divide)->Ok_0.spec_in_width(),
{
}

/// Every configuration with a field outside the supported ranges is rejected
/// by the derivation, before any register operation could be recorded.
pub proof fn lemma_invalid_configuration_rejected(c: FmcSdramConfiguration, sd_clock_divide: u32)
    requires
        !c.spec_valid(),
    ensures
        spec_derive_sdcr(c, sd_clock_divide) is Err,
{
}

/// Deriving the register program twice from the same configuration, timing,
/// source clock, mode register and target bank yields the same result: the
/// derivation is a pure function of those inputs, with no hidden state.
pub proof fn lemma_derivation_deterministic(
    c: FmcSdramConfiguration,
    t: FmcSdramTiming,
    source_clock_hz: u32,
    mode_register: u16,
    bank: SdramTargetBank,
    r1: Result<Seq<FmcOperation>, FmcError>,
    r2: Result<Seq<FmcOperation>, FmcError>,
)
    requires
        r1 == spec_sdram_program(c, t, source_clock_hz, mode_register, bank),
        r2 == spec_sdram_program(c, t, source_clock_hz, mode_register, bank),
    ensures
        r1 == r2,
{
}

/// SDRAM Commands
#[derive(Clone, Copy, Debug, PartialEq, Eq, Structural)]
pub enum SdramCommand {
    /// Normal operation
    NormalMode,
    /// Start delivering the SD clock to the device
    ClkEnable,
    /// Precharge all banks
    Pall,
    /// The given number of auto-refresh cycles
    Autorefresh(u8),
    /// Load the device's mode register with the given value
    LoadMode(u16),
    /// Enter self refresh
    Selfrefresh,
    /// Enter power-down
    Powerdown,
}

/// The single SDCMR register write that issues a command at a target bank:
/// opcode, repeat count and mode register payload per command, and one
/// command-target bit per bank.
pub open spec fn spec_command_op(mode: SdramCommand, target: SdramTargetBank) -> FmcOperation {
    let cmd: u32 = match mode {
        SdramCommand::NormalMode => 0x00,
        SdramCommand::ClkEnable => 0x01,
        SdramCommand::Pall => 0x02,
        SdramCommand::Autorefresh(_) => 0x03,
        SdramCommand::LoadMode(_) => 0x04,
        SdramCommand::Selfrefresh => 0x05,
        SdramCommand::Powerdown => 0x06,
    };
    let number_refresh: u32 = match mode {
        SdramCommand::Autorefresh(a) => a as u32,
        _ => 1,
    };
    let mode_reg: u32 = match mode {
        SdramCommand::LoadMode(mr) => mr as u32,
        _ => 0,
    };
    let ctb1: u32 = match target {
        SdramTargetBank::Bank1 => 1,
        SdramTargetBank::Bank2 => 0,
        SdramTargetBank::Both => 1,
    };
    let ctb2: u32 = match target {
        SdramTargetBank::Bank1 => 0,
        SdramTargetBank::Bank2 => 1,
        SdramTargetBank::Both => 1,
    };
    FmcOperation::WriteSdcmr { mrd: mode_reg, nrfs: number_refresh, ctb1, ctb2, mode: cmd }
}

/// The four feature and timing register writes of one configuration: the
/// shared SDCR fields, the banked SDCR fields, the shared SDTR fields and
/// the banked SDTR fields, in that order.
pub open spec fn spec_features_ops(
    sdcr: SdcrValues,
    sdtr: SdtrValues,
    bank: SdramTargetBank,
) -> Seq<FmcOperation> {
    seq![
        FmcOperation::ModifySdcrCommon { rpipe: sdcr.rpipe, rburst: sdcr.rburst, sdclk: sdcr.sdclk },
        FmcOperation::ModifySdcrBank {
            bank,
            wp: sdcr.wp,
            cas: sdcr.cas,
            nb: sdcr.nb,
            mwid: sdcr.mwid,
            nr: sdcr.nr,
            nc: sdcr.nc,
        },
        FmcOperation::ModifySdtrCommon { trc: sdtr.trc, trp: sdtr.trp },
        FmcOperation::ModifySdtrBank {
            bank,
            trcd: sdtr.trcd,
            twr: sdtr.twr,
            tras: sdtr.tras,
            txsr: sdtr.txsr,
            tmrd: sdtr.tmrd,
        },
    ]
}

/// The whole recorded program of one SDRAM initialisation: the feature and
/// timing registers, then clock enable, the power-up wait, precharge-all,
/// eight auto-refresh cycles, the mode register load, and finally the
/// refresh counter.
pub open spec fn spec_init_sequence(
    sdcr: SdcrValues,
    sdtr: SdtrValues,
    refresh_count: u32,
    mode_register: u16,
    startup_us: u32,
    bank: SdramTargetBank,
) -> Seq<FmcOperation> {
    spec_features_ops(sdcr, sdtr, bank) + seq![
        spec_command_op(SdramCommand::ClkEnable, bank),
        FmcOperation::DelayMicroseconds { us: startup_us },
        spec_command_op(SdramCommand::Pall, bank),
        spec_command_op(SdramCommand::Autorefresh(8), bank),
        spec_command_op(SdramCommand::LoadMode(mode_register), bank),
        FmcOperation::WriteSdrtr { count: refresh_count },
    ]
}

/// The full derivation of one initialisation: every register value from the
/// descriptors and the source clock, or the first error met, in the fixed
/// order clock, configuration, timing, refresh counter. All validation
/// happens here, before any operation is recorded.
pub open spec fn spec_sdram_program(
    c: FmcSdramConfiguration,
    t: FmcSdramTiming,
    source_clock_hz: u32,
    mode_register: u16,
    bank: SdramTargetBank,
) -> Result<Seq<FmcOperation>, FmcError> {
    match spec_derive_clock(source_clock_hz, t.max_sd_clock_hz) {
        Err(e) => Err(e),
        Ok((sd_clock_hz, divide)) => match spec_derive_sdcr(c, divide) {
            Err(e) => Err(e),
            Ok(sdcr) => match spec_derive_sdtr(t) {
                Err(e) => Err(e),
                Ok(sdtr) => match spec_refresh_counter(t.refresh_period_ns, sd_clock_hz) {
                    Err(e) => Err(e),
                    Ok(count) => Ok(
                        spec_init_sequence(
                            sdcr,
                            sdtr,
                            count,
                            mode_register,
                            spec_startup_delay_us(t.startup_delay_ns),
                            bank,
                        ),
                    ),
                },
            },
        },
    }
}

/// SDRAM target bank and corresponding FMC bank.
pub trait SdramPinSet {
    /// External SDRAM bank
    spec fn spec_target() -> SdramTargetBank;

    /// Corresponding FMC bank to map this to
    spec fn spec_fmc_bank() -> FmcBank;

    /// The target bank is always one definite bank, never both.
    proof fn target_is_single()
        ensures
            Self::spec_target() != SdramTargetBank::Both,
    ;

    /// External SDRAM bank
    fn target() -> (r: SdramTargetBank)
        ensures
            r == Self::spec_target(),
    ;

    /// Corresponding FMC bank to map this to
    fn fmc_bank() -> (r: FmcBank)
        ensures
            r == Self::spec_fmc_bank(),
    ;
}

/// SDRAM on Bank 1 of FMC controller
#[derive(Clone, Copy, Debug)]
pub struct SdramBank1;

impl SdramPinSet for SdramBank1 {
    open spec fn spec_target() -> SdramTargetBank {
        SdramTargetBank::Bank1
    }

    open spec fn spec_fmc_bank() -> FmcBank {
        FmcBank::Bank5
    }

    proof fn target_is_single() {
    }

    fn target() -> SdramTargetBank {
        SdramTargetBank::Bank1
    }

    fn fmc_bank() -> FmcBank {
        FmcBank::Bank5
    }
}

/// SDRAM on Bank 2 of FMC controller
#[derive(Clone, Copy, Debug)]
pub struct SdramBank2;

impl SdramPinSet for SdramBank2 {
    open spec fn spec_target() -> SdramTargetBank {
        SdramTargetBank::Bank2
    }

    open spec fn spec_fmc_bank() -> FmcBank {
        FmcBank::Bank6
    }

    proof fn target_is_single() {
    }

    fn target() -> SdramTargetBank {
        SdramTargetBank::Bank2
    }

    fn fmc_bank() -> FmcBank {
        FmcBank::Bank6
    }
}

/// Set of pins for an SDRAM, that corresponds to a specific bank.
pub trait PinsSdram<Bank: SdramPinSet> {
    /// The number of address pins in this set of pins
    spec fn spec_address_lines(&self) -> u8;

    /// The number of SDRAM banks addressable with this set of pins
    spec fn spec_number_internal_banks(&self) -> u8;

    /// The number of address pins in this set of pins
    fn address_lines(&self) -> (r: u8)
        ensures
            r == self.spec_address_lines(),
    ;

    /// The number of SDRAM banks addressable with this set of pins
    fn number_internal_banks(&self) -> (r: u8)
        ensures
            r == self.spec_number_internal_banks(),
    ;
}

/// A construction-time record of the pins wired to an SDRAM bank: which
/// address line count the board provides, and how many internal banks its
/// bank address lines can select.
#[derive(Clone, Copy, Debug)]
pub struct SdramPinRecord<BANK, ADDR> {
    /// The SDRAM bank these pins connect to
    pub bank: BANK,
    /// The provided address lines
    pub address: ADDR,
    /// The number of internal banks the bank address lines select
    pub internal_banks: u8,
}

impl<BANK: SdramPinSet, ADDR: AddressPinSet> PinsSdram<BANK> for SdramPinRecord<BANK, ADDR> {
    open spec fn spec_address_lines(&self) -> u8 {
        self.address.spec_address_pins()
    }

    open spec fn spec_number_internal_banks(&self) -> u8 {
        self.internal_banks
    }

    fn address_lines(&self) -> u8 {
        self.address.address_pins()
    }

    fn number_internal_banks(&self) -> u8 {
        self.internal_banks
    }
}

/// Whether a pin set suffices for a chip: the address lines must reach every
/// row and every column, and the bank address lines every internal bank.
pub open spec fn spec_check_sdram_pins(
    address_lines: u8,
    number_internal_banks: u8,
    c: FmcSdramConfiguration,
) -> Result<(), FmcError> {
    if address_lines < c.row_bits || address_lines < c.column_bits {
        Err(FmcError::AddressPins)
    } else if number_internal_banks < c.internal_banks {
        Err(FmcError::BankPins)
    } else {
        Ok(())
    }
}

/// Check a pin set against a chip configuration.
pub fn check_sdram_pins(
    address_lines: u8,
    number_internal_banks: u8,
    c: &FmcSdramConfiguration,
) -> (r: Result<(), FmcError>)
    ensures
        r == spec_check_sdram_pins(address_lines, number_internal_banks, *c),
{
    if address_lines < c.row_bits || address_lines < c.column_bits {
        Err(FmcError::AddressPins)
    } else if number_internal_banks < c.internal_banks {
        Err(FmcError::BankPins)
    } else {
        Ok(())
    }
}

/// Represents a model of SDRAM chip. The descriptors are fixed per chip
/// model; implementations return the same values on every call.
pub trait SdramChip {
    /// Value of the mode register
    fn mode_register(&self) -> u16;

    /// SDRAM controller configuration
    fn config(&self) -> FmcSdramConfiguration;

    /// Timing parameters
    fn timing(&self) -> FmcSdramTiming;
}

/// SDRAM Controller
pub struct Sdram<FMC, IC> {
    /// SDRAM bank
    target_bank: SdramTargetBank,
    /// FMC memory bank to use
    fmc_bank: FmcBank,
    /// Parameters for the SDRAM IC
    chip: IC,
    /// The chip's controller configuration, as its descriptor returned it
    config: FmcSdramConfiguration,
    /// The chip's timing parameters, as its descriptor returned it
    timing: FmcSdramTiming,
    /// The chip's mode register value, as its descriptor returned it
    mode_register: u16,
    /// FMC peripheral
    fmc: FMC,
    /// Register access
    regs: FmcRegisters,
}

impl<IC: SdramChip, FMC: FmcPeripheral> Sdram<FMC, IC> {
    /// The chip configuration this controller was constructed with.
    pub closed spec fn spec_config(&self) -> FmcSdramConfiguration {
        self.config
    }

    /// The chip timing this controller was constructed with.
    pub closed spec fn spec_timing(&self) -> FmcSdramTiming {
        self.timing
    }

    /// The chip mode register value this controller was constructed with.
    pub closed spec fn spec_mode_register(&self) -> u16 {
        self.mode_register
    }

    /// The SDRAM bank commands are issued at.
    pub closed spec fn spec_target_bank(&self) -> SdramTargetBank {
        self.target_bank
    }

    /// The FMC bank whose memory window maps the SDRAM.
    pub closed spec fn spec_fmc_bank(&self) -> FmcBank {
        self.fmc_bank
    }

    /// The peripheral this controller owns.
    pub closed spec fn spec_fmc(&self) -> FMC {
        self.fmc
    }

    /// The operations recorded so far.
    pub closed spec fn spec_operations(&self) -> Seq<FmcOperation> {
        self.regs@
    }

    /// The controller always addresses one definite bank.
    pub closed spec fn wf(&self) -> bool {
        self.target_bank != SdramTargetBank::Both
    }

    /// The operations recorded so far, oldest first.
    pub fn operations(&self) -> (r: &Vec<FmcOperation>)
        ensures
            r@ == self.spec_operations(),
    {
        self.regs.operations()
    }

    /// New SDRAM instance
    ///
    /// `pins` must be a record of the pins connecting to an SDRAM on the FMC
    /// controller. Fails if the pins provide fewer address lines than the
    /// chip's rows or columns need, or fewer bank address lines than its
    /// internal banks need.
    pub fn new<PINS, BANK>(fmc: FMC, pins: PINS, chip: IC) -> (r: Result<Self, FmcError>)
        where PINS: PinsSdram<BANK>, BANK: SdramPinSet,
        ensures
            match r {
                Ok(s) => {
                    &&& spec_check_sdram_pins(
                        pins.spec_address_lines(),
                        pins.spec_number_internal_banks(),
                        s.spec_config(),
                    ) is Ok
                    &&& s.spec_target_bank() == BANK::spec_target()
                    &&& s.spec_fmc_bank() == BANK::spec_fmc_bank()
                    &&& s.spec_operations() == Seq::<FmcOperation>::empty()
                    &&& s.spec_fmc() == fmc
                    &&& s.wf()
                },
                Err(e) => e == FmcError::AddressPins || e == FmcError::BankPins,
            },
    {
        let config = chip.config();
        let timing = chip.timing();
        let mode_register = chip.mode_register();
        let address_lines = pins.address_lines();
        let number_internal_banks = pins.number_internal_banks();
        match check_sdram_pins(address_lines, number_internal_banks, &config) {
            Err(e) => Err(e),
            Ok(()) => {
                proof {
                    BANK::target_is_single();
                }
                Ok(
                    Sdram {
                        target_bank: BANK::target(),
                        fmc_bank: BANK::fmc_bank(),
                        chip,
                        config,
                        timing,
                        mode_register,
                        fmc,
                        regs: FmcRegisters::new(),
                    },
                )
            },
        }
    }

    /// New SDRAM instance
    ///
    /// `bank` denotes which SDRAM bank to target: bank 1 or bank 2.
    ///
    /// The pins are not checked against the requirements for the SDRAM chip,
    /// so the caller attests that the wired pins can access the whole memory.
    pub fn new_unchecked(fmc: FMC, bank: SdramTargetBank, chip: IC) -> (r: Self)
        requires
            bank != SdramTargetBank::Both,
        ensures
            r.spec_target_bank() == bank,
            r.spec_fmc_bank() == (if bank == SdramTargetBank::Bank1 {
                FmcBank::Bank5
            } else {
                FmcBank::Bank6
            }),
            r.spec_operations() == Seq::<FmcOperation>::empty(),
            r.spec_fmc() == fmc,
            r.wf(),
    {
        let fmc_bank = match bank {
            SdramTargetBank::Bank1 => FmcBank::Bank5,
            SdramTargetBank::Bank2 => FmcBank::Bank6,
            SdramTargetBank::Both => FmcBank::Bank5,  // excluded by the precondition
        };
        let config = chip.config();
        let timing = chip.timing();
        let mode_register = chip.mode_register();
        Sdram {
            target_bank: bank,
            fmc_bank,
            chip,
            config,
            timing,
            mode_register,
            fmc,
            regs: FmcRegisters::new(),
        }
    }

    /// Send command to SDRAM: record the one SDCMR write that issues it.
    pub fn send_command(&mut self, mode: SdramCommand, target: SdramTargetBank)
        ensures
            final(self).spec_operations() == old(self).spec_operations().push(
                spec_command_op(mode, target),
            ),
            final(self).spec_config() == old(self).spec_config(),
            final(self).spec_timing() == old(self).spec_timing(),
            final(self).spec_mode_register() == old(self).spec_mode_register(),
            final(self).spec_target_bank() == old(self).spec_target_bank(),
            final(self).spec_fmc_bank() == old(self).spec_fmc_bank(),
            final(self).spec_fmc() == old(self).spec_fmc(),
    {
        let (cmd, number_refresh, mode_reg): (u32, u32, u32) = match mode {
            SdramCommand::NormalMode => (0x00, 1, 0),
            SdramCommand::ClkEnable => (0x01, 1, 0),
            SdramCommand::Pall => (0x02, 1, 0),
            SdramCommand::Autorefresh(a) => (0x03, a as u32, 0),
            SdramCommand::LoadMode(mr) => (0x04, 1, mr as u32),
            SdramCommand::Selfrefresh => (0x05, 1, 0),
            SdramCommand::Powerdown => (0x06, 1, 0),
        };
        let (b1, b2): (u32, u32) = match target {
            SdramTargetBank::Bank1 => (1, 0),
            SdramTargetBank::Bank2 => (0, 1),
            SdramTargetBank::Both => (1, 1),
        };
        self.regs.record(
            FmcOperation::WriteSdcmr {
                mrd: mode_reg,
                nrfs: number_refresh,
                ctb1: b1,
                ctb2: b2,
                mode: cmd,
            },
        );
    }

    /// Program memory device features and timings: validate the whole
    /// configuration and timing set, then record the four feature and timing
    /// register writes. On failure nothing is recorded.
    pub fn set_features_timings(
        &mut self,
        config: FmcSdramConfiguration,
        timing: FmcSdramTiming,
        sd_clock_divide: u32,
    ) -> (r: Result<(), FmcError>)
        ensures
            final(self).spec_config() == old(self).spec_config(),
            final(self).spec_timing() == old(self).spec_timing(),
            final(self).spec_mode_register() == old(self).spec_mode_register(),
            final(self).spec_target_bank() == old(self).spec_target_bank(),
            final(self).spec_fmc_bank() == old(self).spec_fmc_bank(),
            final(self).spec_fmc() == old(self).spec_fmc(),
            match (spec_derive_sdcr(config, sd_clock_divide), spec_derive_sdtr(timing)) {
                (Ok(sdcr), Ok(sdtr)) => r is Ok && final(self).spec_operations() == old(
                    self,
                ).spec_operations() + spec_features_ops(sdcr, sdtr, old(self).spec_target_bank()),
                (Err(e), _) => r == Err::<(), FmcError>(e) && final(self).spec_operations() == old(
                    self,
                ).spec_operations(),
                (Ok(_), Err(e)) => r == Err::<(), FmcError>(e) && final(self).spec_operations()
                    == old(self).spec_operations(),
            },
    {
        let sdcr = match derive_sdcr(&config, sd_clock_divide) {
            Ok(v) => v,
            Err(e) => {
                return Err(e);
            },
        };
        let sdtr = match derive_sdtr(&timing) {
            Ok(v) => v,
            Err(e) => {
                return Err(e);
            },
        };
        let bank = self.target_bank;
        self.regs.record(
            FmcOperation::ModifySdcrCommon {
                rpipe: sdcr.rpipe,
                rburst: sdcr.rburst,
                sdclk: sdcr.sdclk,
            },
        );
        self.regs.record(
            FmcOperation::ModifySdcrBank {
                bank,
                wp: sdcr.wp,
                cas: sdcr.cas,
                nb: sdcr.nb,
                mwid: sdcr.mwid,
                nr: sdcr.nr,
                nc: sdcr.nc,
            },
        );
        self.regs.record(FmcOperation::ModifySdtrCommon { trc: sdtr.trc, trp: sdtr.trp });
        self.regs.record(
            FmcOperation::ModifySdtrBank {
                bank,
                trcd: sdtr.trcd,
                twr: sdtr.twr,
                tras: sdtr.tras,
                txsr: sdtr.txsr,
                tmrd: sdtr.tmrd,
            },
        );
        proof {
            assert(self.spec_operations() =~= old(self).spec_operations() + spec_features_ops(
                sdcr,
                sdtr,
                old(self).spec_target_bank(),
            ));
        }
        Ok(())
    }

    /// Initialise SDRAM instance: derive every register value, and on
    /// success record the whole mandated sequence — feature and timing
    /// registers, clock enable, the power-up wait, precharge-all, eight
    /// auto-refresh cycles, the mode register load, and the refresh counter.
    ///
    /// Returns the base address of the memory-mapped SDRAM window. On any
    /// configuration error nothing is recorded.
    pub fn init(&mut self) -> (r: Result<u32, FmcError>)
        requires
            old(self).wf(),
        ensures
            final(self).spec_config() == old(self).spec_config(),
            final(self).spec_timing() == old(self).spec_timing(),
            final(self).spec_mode_register() == old(self).spec_mode_register(),
            final(self).spec_target_bank() == old(self).spec_target_bank(),
            final(self).spec_fmc_bank() == old(self).spec_fmc_bank(),
            final(self).wf(),
            match spec_sdram_program(
                old(self).spec_config(),
                old(self).spec_timing(),
                old(self).spec_fmc().spec_source_clock_hz(),
                old(self).spec_mode_register(),
                old(self).spec_target_bank(),
            ) {
                Ok(ops) => r == Ok::<u32, FmcError>(old(self).spec_fmc_bank().spec_address())
                    && final(self).spec_operations() == old(self).spec_operations() + ops,
                Err(e) => r == Err::<u32, FmcError>(e) && final(self).spec_operations() == old(
                    self,
                ).spec_operations(),
            },
    {
        let bank = self.target_bank;
        let config = self.config;
        let timing = self.timing;
        let mode_register = self.mode_register;

        // Calculate the SD clock
        let source_clock_hz = self.fmc.source_clock_hz();
        let (sd_clock_hz, divide) = match derive_clock(source_clock_hz, timing.max_sd_clock_hz) {
            Ok(v) => v,
            Err(e) => {
                return Err(e);
            },
        };

        // Validate everything else before recording any operation
        match derive_sdcr(&config, divide) {
            Ok(_) => (),
            Err(e) => {
                return Err(e);
            },
        }
        match derive_sdtr(&timing) {
            Ok(_) => (),
            Err(e) => {
                return Err(e);
            },
        }
        let refresh_count = match derive_refresh_counter(timing.refresh_period_ns, sd_clock_hz) {
            Ok(v) => v,
            Err(e) => {
                return Err(e);
            },
        };

        // Enable memory controller AHB register access
        self.fmc.enable();

        // Program device features and timing
        match self.set_features_timings(config, timing, divide) {
            Ok(()) => (),
            Err(e) => {
                return Err(e);
            },
        }

        // Enable memory controller
        self.fmc.memory_controller_enable();

        // Step 1: Send a clock configuration enable command
        self.send_command(SdramCommand::ClkEnable, bank);

        // Step 2: SDRAM powerup delay
        let startup_us = startup_delay_us(timing.startup_delay_ns);
        self.regs.record(FmcOperation::DelayMicroseconds { us: startup_us });

        // Step 3: Send a PALL (precharge all) command
        self.send_command(SdramCommand::Pall, bank);

        // Step 4: Send eight auto refresh commands
        self.send_command(SdramCommand::Autorefresh(8), bank);

        // Step 5: Program the SDRAM's mode register
        self.send_command(SdramCommand::LoadMode(mode_register), bank);

        // Step 6: Set the refresh rate counter
        self.regs.record(FmcOperation::WriteSdrtr { count: refresh_count });

        proof {
            let program = spec_sdram_program(
                old(self).spec_config(),
                old(self).spec_timing(),
                old(self).spec_fmc().spec_source_clock_hz(),
                old(self).spec_mode_register(),
                old(self).spec_target_bank(),
            );
            assert(self.spec_operations() =~= old(self).spec_operations() + program->Ok_0);
        }

        // Memory now initialised. Return the base address
        Ok(self.fmc_bank.ptr())
    }
}

} // verus!
