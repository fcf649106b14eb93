//! Management of external NAND Flash through the FMC.
//!
//! Commands and parameters follow the Open NAND Flash Interface (ONFI)
//! specification. Every exchange is a fixed request/response pattern over
//! three memory-mapped windows: a command window, an address window and a
//! data window, plus an attribute-space command window for the confirm
//! strobes. The driver states each exchange exactly as a sequence of bus
//! transactions; a [`NandBus`] implementation carries them to the hardware,
//! and [`SimulatedNandBus`] replays scripted responses in memory.
//!
//! Addressing supports up to 64Gb / 4GByte (8-bit data) or 128Gb / 8GByte
//! (16-bit data).

use vstd::prelude::*;
use vstd::string::StringSliceAdditionalSpecFns;

verus! {

/// 0xFF Reset
pub const CMD_RESET: u8 = 0xFF;

/// 0x90 Read ID
pub const CMD_READ_ID: u8 = 0x90;

/// 0xEC Read Parameter Page
pub const CMD_READ_PARAMETER_PAGE: u8 = 0xEC;

/// 0xED Read Unique ID
pub const CMD_READ_UNIQUE_ID: u8 = 0xED;

/// 0x60 Block Erase setup
pub const CMD_BLOCK_ERASE: u8 = 0x60;

/// 0xD0 Block Erase confirm
pub const CMD_ERASE_CONFIRM: u8 = 0xD0;

/// 0x70 Read Status
pub const CMD_READ_STATUS: u8 = 0x70;

/// 0x00 Page Read setup
pub const CMD_PAGE_READ: u8 = 0x00;

/// 0x30 Page Read confirm
pub const CMD_PAGE_READ_CONFIRM: u8 = 0x30;

/// 0x80 Page Program setup
pub const CMD_PAGE_PROGRAM: u8 = 0x80;

/// 0x10 Page Program confirm
pub const CMD_PAGE_PROGRAM_CONFIRM: u8 = 0x10;

/// Status register bit: the device has finished the running program
pub const STATUS_READY_MASK: u8 = 0x20;

/// One transaction on the NAND bus: a byte written to a window, or a byte
/// read from one, with the value the device returned.
#[derive(Clone, Copy, Debug, PartialEq, Eq, Structural)]
pub enum NandBusOperation {
    /// One byte written to the given window address
    Write {
        /// The window address written to
        address: u32,
        /// The byte written
        value: u8,
    },
    /// One byte read from the given window address
    Read {
        /// The window address read from
        address: u32,
        /// The byte the device returned
        value: u8,
    },
}

/// The byte a transaction carried.
pub open spec fn spec_op_value(op: NandBusOperation) -> u8 {
    match op {
        NandBusOperation::Write { value, .. } => value,
        NandBusOperation::Read { value, .. } => value,
    }
}

/// The read transactions that return the given bytes from one window.
pub open spec fn spec_reads(address: u32, values: Seq<u8>) -> Seq<NandBusOperation> {
    values.map_values(|v: u8| NandBusOperation::Read { address, value: v })
}

/// The write transactions that carry the given bytes to one window.
pub open spec fn spec_writes(address: u32, values: Seq<u8>) -> Seq<NandBusOperation> {
    values.map_values(|v: u8| NandBusOperation::Write { address, value: v })
}

/// A completed status poll: one or more write/read pairs, each writing the
/// poll command and reading a status byte, where every status but the last
/// has the ready mask clear and the last has it set.
pub open spec fn spec_is_poll_trace(
    t: Seq<NandBusOperation>,
    command_address: u32,
    command: u8,
    data_address: u32,
    ready_mask: u8,
) -> bool
    decreases t.len(),
{
    if t.len() < 2 {
        false
    } else {
        &&& t[0] == (NandBusOperation::Write { address: command_address, value: command })
        &&& match t[1] {
            NandBusOperation::Read { address, value } => {
                &&& address == data_address
                &&& if t.len() == 2 {
                    value & ready_mask != 0
                } else {
                    &&& value & ready_mask == 0
                    &&& spec_is_poll_trace(
                        t.skip(2),
                        command_address,
                        command,
                        data_address,
                        ready_mask,
                    )
                }
            },
            _ => false,
        }
    }
}

/// Zero or more completed poll pairs whose status bytes all have the ready
/// mask clear: the front of a still-running status poll.
pub open spec fn spec_is_pending_polls(
    t: Seq<NandBusOperation>,
    command_address: u32,
    command: u8,
    data_address: u32,
    ready_mask: u8,
) -> bool
    decreases t.len(),
{
    if t.len() == 0 {
        true
    } else if t.len() < 2 {
        false
    } else {
        &&& t[0] == (NandBusOperation::Write { address: command_address, value: command })
        &&& match t[1] {
            NandBusOperation::Read { address, value } => {
                &&& address == data_address
                &&& value & ready_mask == 0
                &&& spec_is_pending_polls(
                    t.skip(2),
                    command_address,
                    command,
                    data_address,
                    ready_mask,
                )
            },
            _ => false,
        }
    }
}

/// Pending poll pairs followed by a completed poll form a completed poll.
proof fn lemma_pending_then_poll(
    pre: Seq<NandBusOperation>,
    tail: Seq<NandBusOperation>,
    command_address: u32,
    command: u8,
    data_address: u32,
    ready_mask: u8,
)
    requires
        spec_is_pending_polls(pre, command_address, command, data_address, ready_mask),
        spec_is_poll_trace(tail, command_address, command, data_address, ready_mask),
    ensures
        spec_is_poll_trace(pre + tail, command_address, command, data_address, ready_mask),
    decreases pre.len(),
{
    if pre.len() == 0 {
        assert(pre + tail =~= tail);
    } else {
        lemma_pending_then_poll(
            pre.skip(2),
            tail,
            command_address,
            command,
            data_address,
            ready_mask,
        );
        assert((pre + tail).skip(2) =~= pre.skip(2) + tail);
        assert((pre + tail)[0] == pre[0]);
        assert((pre + tail)[1] == pre[1]);
    }
}

/// Pending poll pairs extended by one more unready pair stay pending.
proof fn lemma_pending_polls_extend(
    pre: Seq<NandBusOperation>,
    command_address: u32,
    command: u8,
    data_address: u32,
    ready_mask: u8,
    status: u8,
)
    requires
        spec_is_pending_polls(pre, command_address, command, data_address, ready_mask),
        status & ready_mask == 0,
    ensures
        spec_is_pending_polls(
            pre + seq![
                NandBusOperation::Write { address: command_address, value: command },
                NandBusOperation::Read { address: data_address, value: status },
            ],
            command_address,
            command,
            data_address,
            ready_mask,
        ),
    decreases pre.len(),
{
    let pair = seq![
        NandBusOperation::Write { address: command_address, value: command },
        NandBusOperation::Read { address: data_address, value: status },
    ];
    if pre.len() == 0 {
        assert(pre + pair =~= pair);
        assert(pair.skip(2) =~= Seq::<NandBusOperation>::empty());
        assert(spec_is_pending_polls(
            Seq::<NandBusOperation>::empty(),
            command_address,
            command,
            data_address,
            ready_mask,
        ));
    } else {
        lemma_pending_polls_extend(
            pre.skip(2),
            command_address,
            command,
            data_address,
            ready_mask,
            status,
        );
        assert((pre + pair).skip(2) =~= pre.skip(2) + pair);
        assert((pre + pair)[0] == pre[0]);
        assert((pre + pair)[1] == pre[1]);
    }
}

/// Byte access to the NAND windows. A platform layer implements this with
/// volatile reads and writes against the memory-mapped bank (with a memory
/// barrier after each access); [`SimulatedNandBus`] implements it in memory.
pub trait NandBus: Sized {
    /// All bus transactions so far, oldest first.
    spec fn bus_log(&self) -> Seq<NandBusOperation>;

    /// Write one byte to the given window address.
    fn write8(&mut self, address: u32, value: u8)
        ensures
            final(self).bus_log() == old(self).bus_log().push(
                NandBusOperation::Write { address, value },
            ),
    ;

    /// Read one byte from the given window address.
    fn read8(&mut self, address: u32) -> (value: u8)
        ensures
            final(self).bus_log() == old(self).bus_log().push(
                NandBusOperation::Read { address, value },
            ),
    ;

    /// Write the command byte at the command window and read the data window,
    /// again and again, until the byte read has a bit of `ready_mask` set;
    /// the device guarantees that it eventually does. Returns that byte.
    fn poll8(&mut self, command_address: u32, command: u8, data_address: u32, ready_mask: u8) -> (
        value: u8
    )
        requires
            ready_mask != 0,
        ensures
            value & ready_mask != 0,
            old(self).bus_log().len() < final(self).bus_log().len(),
            final(self).bus_log().subrange(0, old(self).bus_log().len() as int) == old(
                self,
            ).bus_log(),
            spec_is_poll_trace(
                final(self).bus_log().skip(old(self).bus_log().len() as int),
                command_address,
                command,
                data_address,
                ready_mask,
            ),
            final(self).bus_log().last() == (NandBusOperation::Read {
                address: data_address,
                value,
            }),
    ;
}

/// An in-memory NAND bus: reads return scripted response bytes, in order,
/// and every transaction is logged. Once the script is exhausted reads
/// return 0xFF, as a floating bus would.
pub struct SimulatedNandBus {
    responses: Vec<u8>,
    cursor: usize,
    events: Vec<NandBusOperation>,
}

impl SimulatedNandBus {
    /// A bus that will answer reads with the given bytes, in order.
    pub fn new(responses: Vec<u8>) -> (r: Self)
        ensures
            r.bus_log() == Seq::<NandBusOperation>::empty(),
    {
        SimulatedNandBus { responses, cursor: 0, events: Vec::new() }
    }

    /// The logged transactions, oldest first.
    pub fn events(&self) -> (r: &Vec<NandBusOperation>)
        ensures
            r@ == self.bus_log(),
    {
        &self.events
    }
}

impl NandBus for SimulatedNandBus {
    closed spec fn bus_log(&self) -> Seq<NandBusOperation> {
        self.events@
    }

    fn write8(&mut self, address: u32, value: u8) {
        self.events.push(NandBusOperation::Write { address, value });
    }

    fn read8(&mut self, address: u32) -> (value: u8) {
        let value: u8 = if self.cursor < self.responses.len() {
            let b = self.responses[self.cursor];
            self.cursor = self.cursor + 1;
            b
        } else {
            0xFF
        };
        self.events.push(NandBusOperation::Read { address, value });
        value
    }

    fn poll8(&mut self, command_address: u32, command: u8, data_address: u32, ready_mask: u8) -> (
        value: u8
    ) {
        let ghost mut pending: Seq<NandBusOperation> = Seq::empty();
        proof {
            assert(self.events@ =~= old(self).events@ + pending);
        }
        loop
            invariant
                ready_mask != 0,
                self.responses@ == old(self).responses@,
                self.cursor >= old(self).cursor,
                self.events@ == old(self).events@ + pending,
                spec_is_pending_polls(
                    pending,
                    command_address,
                    command,
                    data_address,
                    ready_mask,
                ),
            decreases self.responses@.len() - self.cursor,
        {
            self.events.push(NandBusOperation::Write { address: command_address, value: command });
            let from_script = self.cursor < self.responses.len();
            let value: u8 = if from_script {
                let b = self.responses[self.cursor];
                self.cursor = self.cursor + 1;
                b
            } else {
                0xFF
            };
            self.events.push(NandBusOperation::Read { address: data_address, value });
            let ghost pair = seq![
                NandBusOperation::Write { address: command_address, value: command },
                NandBusOperation::Read { address: data_address, value },
            ];
            if value & ready_mask != 0 {
                proof {
                    assert(spec_is_poll_trace(
                        pair,
                        command_address,
                        command,
                        data_address,
                        ready_mask,
                    ));
                    lemma_pending_then_poll(
                        pending,
                        pair,
                        command_address,
                        command,
                        data_address,
                        ready_mask,
                    );
                    assert(self.events@ =~= old(self).events@ + (pending + pair));
                    assert(self.events@.skip(old(self).events@.len() as int) =~= pending + pair);
                    assert(self.events@.subrange(0, old(self).events@.len() as int) =~= old(
                        self,
                    ).events@);
                }
                return value;
            }
            proof {
                // An exhausted script answers 0xFF, which always has a ready
                // bit set, so an unready status came from the script.
                assert(0xFFu8 & ready_mask != 0) by (bit_vector)
                    requires
                        ready_mask != 0,
                ;
                assert(from_script);
                lemma_pending_polls_extend(
                    pending,
                    command_address,
                    command,
                    data_address,
                    ready_mask,
                    value,
                );
                pending = pending + pair;
                assert(self.events@ =~= old(self).events@ + pending);
            }
        }
    }
}

/// Status returned from 0x70 Read Status
#[derive(Clone, Copy, Debug, PartialEq, Eq, Structural)]
pub enum Status {
    /// Status Register indicated Pass
    Success(u8),
    /// Status Register indicates Fail
    Fail(u8),
}

/// The status a register byte reports: bit zero set means the last command
/// failed.
pub open spec fn spec_status_from_register(reg: u8) -> Status {
    if reg & 1 == 1 {
        Status::Fail(reg)
    } else {
        Status::Success(reg)
    }
}

impl Status {
    /// Decode a status register byte.
    pub fn from_register(reg: u8) -> (r: Self)
        ensures
            r == spec_status_from_register(reg),
    {
        if reg & 1 == 1 {
            Status::Fail(reg)
        } else {
            Status::Success(reg)
        }
    }
}

/// Identifier returned from 0x90 Read ID
#[derive(Clone, Copy, Debug, PartialEq, Eq, Structural)]
pub struct ID {
    /// JEDEC manufacturer ID
    pub manufacturer_jedec: u8,
    /// JEDEC device ID
    pub device_jedec: u8,
    /// Number of internal chips behind one chip enable
    pub internal_chip_count: usize,
    /// Page size in bytes; zero when the device reports none
    pub page_size: usize,
}

/// The internal chip count a Read ID byte encodes in its two low bits.
pub open spec fn spec_id_internal_chip_count(b: u8) -> usize {
    if b & 3 == 1 {
        2
    } else if b & 3 == 2 {
        4
    } else if b & 3 == 3 {
        8
    } else {
        1
    }
}

/// The page size a Read ID byte encodes in its two low bits; zero stands
/// for an undefined size.
pub open spec fn spec_id_page_size(b: u8) -> usize {
    if b & 3 == 1 {
        2048
    } else if b & 3 == 2 {
        4096
    } else {
        0
    }
}

/// The identifier that five Read ID response bytes decode to.
pub open spec fn spec_decode_id(bytes: Seq<u8>) -> ID {
    ID {
        manufacturer_jedec: bytes[0],
        device_jedec: bytes[1],
        internal_chip_count: spec_id_internal_chip_count(bytes[2]),
        page_size: spec_id_page_size(bytes[3]),
    }
}

/// Parameter Page returned from 0xEC Read Parameter Page
#[derive(Clone, Copy, Debug, PartialEq, Eq)]
pub struct ParameterPage {
    /// The page signature, "ONFI" on a conforming device
    pub signature: [u8; 4],
    /// Supported ONFI revisions
    pub onfi_revision: u16,
    /// Manufacturer name, space padded
    pub manufacturer: [u8; 12],
    /// Model name, space padded
    pub model: [u8; 20],
    /// Manufacturing date code
    pub date_code: u16,
    /// Data bytes per page
    pub data_bytes_per_page: u32,
    /// Spare bytes per page
    pub spare_bytes_per_page: u16,
    /// Pages per block
    pub pages_per_block: u32,
    /// Blocks per logical unit
    pub blocks_per_lun: u32,
    /// Number of logical units
    pub lun_count: u8,
    /// ECC bits of correctability the device asks for
    pub ecc_bits: u8,
}

/// How a parameter page relates to the 115 response bytes it was decoded
/// from: each field holds the bytes at its fixed ONFI offset, multi-byte
/// integers read little-endian.
pub open spec fn spec_parameter_page_matches(p: ParameterPage, bytes: Seq<u8>) -> bool {
    &&& p.signature@ == bytes.subrange(0, 4)
    &&& p.onfi_revision == vstd::bytes::spec_u16_from_le_bytes(bytes.subrange(4, 6))
    &&& p.manufacturer@ == bytes.subrange(32, 44)
    &&& p.model@ == bytes.subrange(44, 64)
    &&& p.date_code == vstd::bytes::spec_u16_from_le_bytes(bytes.subrange(65, 67))
    &&& p.data_bytes_per_page == vstd::bytes::spec_u32_from_le_bytes(bytes.subrange(80, 84))
    &&& p.spare_bytes_per_page == vstd::bytes::spec_u16_from_le_bytes(bytes.subrange(84, 86))
    &&& p.pages_per_block == vstd::bytes::spec_u32_from_le_bytes(bytes.subrange(92, 96))
    &&& p.blocks_per_lun == vstd::bytes::spec_u32_from_le_bytes(bytes.subrange(96, 100))
    &&& p.lun_count == bytes[100]
    &&& p.ecc_bits == bytes[112]
}

/// Relies on str::from_utf8: it succeeds exactly on the byte sequences that
/// vstd's `valid_utf8` accepts, and the returned string slice has the same
/// bytes as its input.
#[verifier::external_body]
fn bytes_as_str(bytes: &[u8]) -> (r: Option<&str>)
    ensures
        r is Some <==> vstd::utf8::valid_utf8(bytes@),
        r matches Some(s) ==> s.spec_bytes() == bytes@,
{
    core::str::from_utf8(bytes).ok()
}

impl ParameterPage {
    /// Manufacturer of the device, or "<ERR>" when the reported name is not
    /// valid UTF-8.
    pub fn manufacturer(&self) -> (r: &str)
        ensures
            vstd::utf8::valid_utf8(self.manufacturer@) ==> r.spec_bytes() == self.manufacturer@,
            !vstd::utf8::valid_utf8(self.manufacturer@) ==> r@ == "<ERR>"@,
    {
        match bytes_as_str(self.manufacturer.as_slice()) {
            Some(s) => s,
            None => "<ERR>",
        }
    }

    /// Model number of the device, or "<ERR>" when the reported name is not
    /// valid UTF-8.
    pub fn model(&self) -> (r: &str)
        ensures
            vstd::utf8::valid_utf8(self.model@) ==> r.spec_bytes() == self.model@,
            !vstd::utf8::valid_utf8(self.model@) ==> r@ == "<ERR>"@,
    {
        match bytes_as_str(self.model.as_slice()) {
            Some(s) => s,
            None => "<ERR>",
        }
    }
}

/// The column a linear byte address selects: its low `column_bits` bits,
/// plus one whole column span when the access targets the spare area.
pub open spec fn spec_column_of(address: usize, column_bits: usize, spare: bool) -> usize {
    ((address as nat % vstd::arithmetic::power2::pow2(column_bits as nat)) + (if spare {
        vstd::arithmetic::power2::pow2(column_bits as nat)
    } else {
        0nat
    })) as usize
}

/// The row a linear byte address selects: the address shifted past its
/// column bits.
pub open spec fn spec_row_of(address: usize, column_bits: usize) -> usize {
    address >> column_bits
}

/// Split a linear byte address into its column and row, per the configured
/// column width. Returns `(column, row)`.
pub fn split_address(address: usize, column_bits: usize, spare: bool) -> (r: (usize, usize))
    requires
        column_bits < 32,
    ensures
        r.0 == spec_column_of(address, column_bits, spare),
        r.1 == spec_row_of(address, column_bits),
{
    proof {
        vstd::bits::lemma_usize_pow2_no_overflow(column_bits as nat);
        vstd::bits::lemma_usize_shl_is_mul(1usize, column_bits);
        vstd::arithmetic::power2::lemma2_to64();
        if column_bits < 31 {
            vstd::arithmetic::power2::lemma_pow2_strictly_increases(column_bits as nat, 31);
        }
        assert(vstd::arithmetic::power2::pow2(column_bits as nat) <= 0x8000_0000);
    }
    let span: usize = 1usize << column_bits;
    let column: usize = (address % span) + (if spare {
        span
    } else {
        0
    });
    let row: usize = address >> column_bits;
    (column, row)
}

/// NAND Device: the three memory-mapped windows of the NAND bank, the
/// attribute-space command window, and the configured column width. Owns
/// the bus that carries its transactions.
pub struct NandDevice<B> {
    bus: B,
    common_command: u32,
    common_address: u32,
    attribute_command: u32,
    common_data: u32,
    /// Number of address bits C that are used for the column address. The
    /// number of data bytes per page is typically 2^C
    column_bits: Option<usize>,
}

impl<B: NandBus> NandDevice<B> {
    /// All transactions this device has put on its bus, oldest first.
    pub closed spec fn spec_bus_log(&self) -> Seq<NandBusOperation> {
        self.bus.bus_log()
    }

    /// The command window address.
    pub closed spec fn spec_common_command(&self) -> u32 {
        self.common_command
    }

    /// The address window address.
    pub closed spec fn spec_common_address(&self) -> u32 {
        self.common_address
    }

    /// The attribute-space command window address.
    pub closed spec fn spec_attribute_command(&self) -> u32 {
        self.attribute_command
    }

    /// The data window address.
    pub closed spec fn spec_common_data(&self) -> u32 {
        self.common_data
    }

    /// The configured column width, if one was configured.
    pub closed spec fn spec_column_bits(&self) -> Option<usize> {
        self.column_bits
    }

    /// The windows and the column width of `b` are those of `a`: an
    /// operation changed nothing but the bus log.
    pub open spec fn spec_same_windows(a: Self, b: Self) -> bool {
        &&& b.spec_common_command() == a.spec_common_command()
        &&& b.spec_common_address() == a.spec_common_address()
        &&& b.spec_attribute_command() == a.spec_attribute_command()
        &&& b.spec_common_data() == a.spec_common_data()
        &&& b.spec_column_bits() == a.spec_column_bits()
    }

    /// Any configured column width fits the address split.
    pub open spec fn wf(&self) -> bool {
        match self.spec_column_bits() {
            Some(cb) => cb < 32,
            None => true,
        }
    }

    /// The five address-cycle writes of one addressed operation: two column
    /// bytes then three row bytes, low bytes first.
    pub open spec fn spec_address_writes(&self, address: usize, spare: bool) -> Seq<
        NandBusOperation,
    > {
        let cb = match self.spec_column_bits() {
            Some(cb) => cb,
            None => 0,
        };
        let column = spec_column_of(address, cb, spare);
        let row = spec_row_of(address, cb);
        seq![
            NandBusOperation::Write {
                address: self.spec_common_address(),
                value: (column % 256) as u8,
            },
            NandBusOperation::Write {
                address: self.spec_common_address(),
                value: ((column >> 8) % 256) as u8,
            },
            NandBusOperation::Write {
                address: self.spec_common_address(),
                value: (row % 256) as u8,
            },
            NandBusOperation::Write {
                address: self.spec_common_address(),
                value: ((row >> 8) % 256) as u8,
            },
            NandBusOperation::Write {
                address: self.spec_common_address(),
                value: ((row >> 16) % 256) as u8,
            },
        ]
    }

    /// The writes that start a page read: the setup command, the five
    /// address cycles, and the confirm strobe at the attribute window.
    pub open spec fn spec_page_read_setup(&self, address: usize, spare: bool) -> Seq<
        NandBusOperation,
    > {
        seq![
            NandBusOperation::Write { address: self.spec_common_command(), value: CMD_PAGE_READ },
        ] + self.spec_address_writes(address, spare) + seq![
            NandBusOperation::Write {
                address: self.spec_attribute_command(),
                value: CMD_PAGE_READ_CONFIRM,
            },
        ]
    }

    /// The writes that submit a page program: the setup command, the five
    /// address cycles, the page data, and the confirm strobe at the
    /// attribute window.
    pub open spec fn spec_page_program_setup(
        &self,
        address: usize,
        spare: bool,
        data: Seq<u8>,
    ) -> Seq<NandBusOperation> {
        seq![
            NandBusOperation::Write {
                address: self.spec_common_command(),
                value: CMD_PAGE_PROGRAM,
            },
        ] + self.spec_address_writes(address, spare) + spec_writes(self.spec_common_data(), data)
            + seq![
            NandBusOperation::Write {
                address: self.spec_attribute_command(),
                value: CMD_PAGE_PROGRAM_CONFIRM,
            },
        ]
    }

    /// The bus this device drives.
    pub fn bus(&self) -> (r: &B)
        ensures
            r.bus_log() == self.spec_bus_log(),
    {
        &self.bus
    }

    /// Create a `NandDevice` from the bank base address and issue the
    /// mandatory reset. The device windows sit at fixed offsets from the
    /// base: data at the base itself, commands at 0x1_0000, addresses at
    /// 0x2_0000 and attribute-space commands at 0x801_0000.
    pub(crate) fn init(bus: B, base_address: u32, column_bits: usize) -> (r: Self)
        requires
            base_address <= 0xF7FE_FFFF,
            column_bits < 32,
        ensures
            r.spec_common_data() == base_address,
            r.spec_common_command() == base_address + 0x1_0000,
            r.spec_common_address() == base_address + 0x2_0000,
            r.spec_attribute_command() == base_address + 0x801_0000,
            r.spec_column_bits() == Some(column_bits),
            r.wf(),
            r.spec_bus_log() == bus.bus_log().push(
                NandBusOperation::Write {
                    address: (base_address + 0x1_0000) as u32,
                    value: CMD_RESET,
                },
            ),
    {
        let mut nand = NandDevice {
            bus,
            common_command: base_address + 0x1_0000,
            common_address: base_address + 0x2_0000,
            attribute_command: base_address + 0x801_0000,
            common_data: base_address,
            column_bits: Some(column_bits),
        };

        // Reset Command. May be specifically required by some devices and
        // there seems to be no disadvantage of sending it always
        nand.reset();

        nand
    }

    /// 0xFF Reset
    pub fn reset(&mut self)
        ensures
            Self::spec_same_windows(*old(self), *final(self)),
            final(self).spec_bus_log() == old(self).spec_bus_log().push(
                NandBusOperation::Write {
                    address: old(self).spec_common_command(),
                    value: CMD_RESET,
                },
            ),
    {
        let addr = self.common_command;
        self.bus.write8(addr, CMD_RESET);
    }

    /// Read `count` bytes from the data window.
    fn read_data(&mut self, count: usize) -> (r: Vec<u8>)
        ensures
            Self::spec_same_windows(*old(self), *final(self)),
            r@.len() == count,
            final(self).spec_bus_log() == old(self).spec_bus_log() + spec_reads(
                old(self).spec_common_data(),
                r@,
            ),
    {
        let mut out: Vec<u8> = Vec::new();
        proof {
            assert(self.spec_bus_log() =~= old(self).spec_bus_log() + spec_reads(
                old(self).spec_common_data(),
                out@,
            ));
        }
        let mut i: usize = 0;
        while i < count
            invariant
                i == out@.len(),
                i <= count,
                Self::spec_same_windows(*old(self), *self),
                self.spec_bus_log() == old(self).spec_bus_log() + spec_reads(
                    old(self).spec_common_data(),
                    out@,
                ),
            decreases count - i,
        {
            let addr = self.common_data;
            let b = self.bus.read8(addr);
            out.push(b);
            i = i + 1;
            proof {
                assert(self.spec_bus_log() =~= old(self).spec_bus_log() + spec_reads(
                    old(self).spec_common_data(),
                    out@,
                ));
            }
        }
        out
    }

    /// Generic command: write the command byte and one address byte, then
    /// read `count` response bytes.
    fn command(&mut self, command: u8, address: u8, count: usize) -> (r: Vec<u8>)
        ensures
            Self::spec_same_windows(*old(self), *final(self)),
            r@.len() == count,
            final(self).spec_bus_log() == old(self).spec_bus_log() + seq![
                NandBusOperation::Write { address: old(self).spec_common_command(), value: command },
                NandBusOperation::Write { address: old(self).spec_common_address(), value: address },
            ] + spec_reads(old(self).spec_common_data(), r@),
    {
        let command_addr = self.common_command;
        let address_addr = self.common_address;
        self.bus.write8(command_addr, command);
        self.bus.write8(address_addr, address);
        let r = self.read_data(count);
        proof {
            assert(self.spec_bus_log() =~= old(self).spec_bus_log() + seq![
                NandBusOperation::Write {
                    address: old(self).spec_common_command(),
                    value: command,
                },
                NandBusOperation::Write {
                    address: old(self).spec_common_address(),
                    value: address,
                },
            ] + spec_reads(old(self).spec_common_data(), r@));
        }
        r
    }

    /// Generic address phase: write the five address cycles of the given
    /// linear address. The column width must be configured first.
    fn address(&mut self, address: usize, spare: bool)
        requires
            old(self).spec_column_bits() is Some,
            old(self).wf(),
        ensures
            Self::spec_same_windows(*old(self), *final(self)),
            final(self).spec_bus_log() == old(self).spec_bus_log() + old(self).spec_address_writes(
                address,
                spare,
            ),
    {
        let column_bits: usize = match self.column_bits {
            Some(cb) => cb,
            None => 0,  // unreachable: the precondition has the column width configured
        };
        let (column, row) = split_address(address, column_bits, spare);
        let address_addr = self.common_address;
        self.bus.write8(address_addr, (column % 256) as u8);
        self.bus.write8(address_addr, ((column >> 8u32) % 256) as u8);
        self.bus.write8(address_addr, (row % 256) as u8);
        self.bus.write8(address_addr, ((row >> 8u32) % 256) as u8);
        self.bus.write8(address_addr, ((row >> 16u32) % 256) as u8);
        proof {
            assert(self.spec_bus_log() =~= old(self).spec_bus_log() + old(
                self,
            ).spec_address_writes(address, spare));
        }
    }

    /// 0x90 Read ID: read and decode the five identifier bytes.
    pub fn read_id(&mut self) -> (r: ID)
        ensures
            Self::spec_same_windows(*old(self), *final(self)),
            exists|bytes: Seq<u8>|
                #![auto]
                {
                    &&& bytes.len() == 5
                    &&& final(self).spec_bus_log() == old(self).spec_bus_log() + seq![
                        NandBusOperation::Write {
                            address: old(self).spec_common_command(),
                            value: CMD_READ_ID,
                        },
                        NandBusOperation::Write {
                            address: old(self).spec_common_address(),
                            value: 0,
                        },
                    ] + spec_reads(old(self).spec_common_data(), bytes)
                    &&& r == spec_decode_id(bytes)
                },
    {
        let id = self.command(CMD_READ_ID, 0, 5);

        let internal_chip_count: usize = match id[2] & 3 {
            1 => 2,
            2 => 4,
            3 => 8,
            _ => 1,
        };
        let page_size: usize = match id[3] & 3 {
            1 => 2048,
            2 => 4096,
            _ => 0,
        };
        let r = ID {
            manufacturer_jedec: id[0],
            device_jedec: id[1],
            internal_chip_count,
            page_size,
        };
        proof {
            assert(r == spec_decode_id(id@));
        }
        r
    }

    /// 0xEC Read Parameter Page: read 115 bytes and decode the fields at
    /// their fixed ONFI offsets.
    pub fn read_parameter_page(&mut self) -> (r: ParameterPage)
        ensures
            Self::spec_same_windows(*old(self), *final(self)),
            exists|bytes: Seq<u8>|
                #![auto]
                {
                    &&& bytes.len() == 115
                    &&& final(self).spec_bus_log() == old(self).spec_bus_log() + seq![
                        NandBusOperation::Write {
                            address: old(self).spec_common_command(),
                            value: CMD_READ_PARAMETER_PAGE,
                        },
                        NandBusOperation::Write {
                            address: old(self).spec_common_address(),
                            value: 0,
                        },
                    ] + spec_reads(old(self).spec_common_data(), bytes)
                    &&& spec_parameter_page_matches(r, bytes)
                },
    {
        let page = self.command(CMD_READ_PARAMETER_PAGE, 0, 115);

        let signature: [u8; 4] = [page[0], page[1], page[2], page[3]];
        let manufacturer: [u8; 12] = [
            page[32],
            page[33],
            page[34],
            page[35],
            page[36],
            page[37],
            page[38],
            page[39],
            page[40],
            page[41],
            page[42],
            page[43],
        ];
        let model: [u8; 20] = [
            page[44],
            page[45],
            page[46],
            page[47],
            page[48],
            page[49],
            page[50],
            page[51],
            page[52],
            page[53],
            page[54],
            page[55],
            page[56],
            page[57],
            page[58],
            page[59],
            page[60],
            page[61],
            page[62],
            page[63],
        ];
        let bytes = page.as_slice();
        let r = ParameterPage {
            signature,
            onfi_revision: vstd::bytes::u16_from_le_bytes(vstd::slice::slice_subrange(bytes, 4, 6)),
            manufacturer,
            model,
            date_code: vstd::bytes::u16_from_le_bytes(vstd::slice::slice_subrange(bytes, 65, 67)),
            data_bytes_per_page: vstd::bytes::u32_from_le_bytes(
                vstd::slice::slice_subrange(bytes, 80, 84),
            ),
            spare_bytes_per_page: vstd::bytes::u16_from_le_bytes(
                vstd::slice::slice_subrange(bytes, 84, 86),
            ),
            pages_per_block: vstd::bytes::u32_from_le_bytes(
                vstd::slice::slice_subrange(bytes, 92, 96),
            ),
            blocks_per_lun: vstd::bytes::u32_from_le_bytes(
                vstd::slice::slice_subrange(bytes, 96, 100),
            ),
            lun_count: page[100],
            ecc_bits: page[112],
        };
        proof {
            assert(r.signature@ =~= page@.subrange(0, 4));
            assert(r.manufacturer@ =~= page@.subrange(32, 44));
            assert(r.model@ =~= page@.subrange(44, 64));
            assert(spec_parameter_page_matches(r, page@));
        }
        r
    }

    /// 0xED Read Unique ID: the sixteen response bytes as one little-endian
    /// 128-bit integer.
    pub fn read_unique_id(&mut self) -> (r: u128)
        ensures
            Self::spec_same_windows(*old(self), *final(self)),
            exists|bytes: Seq<u8>|
                #![auto]
                {
                    &&& bytes.len() == 16
                    &&& final(self).spec_bus_log() == old(self).spec_bus_log() + seq![
                        NandBusOperation::Write {
                            address: old(self).spec_common_command(),
                            value: CMD_READ_UNIQUE_ID,
                        },
                        NandBusOperation::Write {
                            address: old(self).spec_common_address(),
                            value: 0,
                        },
                    ] + spec_reads(old(self).spec_common_data(), bytes)
                    &&& r == vstd::bytes::spec_u128_from_le_bytes(bytes)
                },
    {
        let unique = self.command(CMD_READ_UNIQUE_ID, 0, 16);
        vstd::bytes::u128_from_le_bytes(unique.as_slice())
    }

    /// 0x60 Block Erase: write the three row address bytes of the block,
    /// strobe the confirm command, then read back the device status.
    pub fn block_erase(&mut self, address: usize) -> (r: Status)
        requires
            old(self).spec_column_bits() is Some,
            old(self).wf(),
        ensures
            Self::spec_same_windows(*old(self), *final(self)),
            ({
                let cb = match old(self).spec_column_bits() {
                    Some(cb) => cb,
                    None => 0,
                };
                let row = spec_row_of(address, cb);
                exists|status: u8|
                    #![auto]
                    {
                        &&& final(self).spec_bus_log() == old(self).spec_bus_log() + seq![
                            NandBusOperation::Write {
                                address: old(self).spec_common_command(),
                                value: CMD_BLOCK_ERASE,
                            },
                            NandBusOperation::Write {
                                address: old(self).spec_common_address(),
                                value: (row % 256) as u8,
                            },
                            NandBusOperation::Write {
                                address: old(self).spec_common_address(),
                                value: ((row >> 8) % 256) as u8,
                            },
                            NandBusOperation::Write {
                                address: old(self).spec_common_address(),
                                value: ((row >> 16) % 256) as u8,
                            },
                            NandBusOperation::Write {
                                address: old(self).spec_attribute_command(),
                                value: CMD_ERASE_CONFIRM,
                            },
                            NandBusOperation::Write {
                                address: old(self).spec_common_command(),
                                value: CMD_READ_STATUS,
                            },
                            NandBusOperation::Read {
                                address: old(self).spec_common_data(),
                                value: status,
                            },
                        ]
                        &&& r == spec_status_from_register(status)
                    }
            }),
    {
        let command_addr = self.common_command;
        let address_addr = self.common_address;
        let attribute_addr = self.attribute_command;
        let data_addr = self.common_data;

        // auto block erase setup
        self.bus.write8(command_addr, CMD_BLOCK_ERASE);

        let column_bits: usize = match self.column_bits {
            Some(cb) => cb,
            None => 0,  // unreachable: the precondition has the column width configured
        };
        let row: usize = address >> column_bits;

        // write block address
        self.bus.write8(address_addr, (row % 256) as u8);
        self.bus.write8(address_addr, ((row >> 8u32) % 256) as u8);
        self.bus.write8(address_addr, ((row >> 16u32) % 256) as u8);

        // erase command, then read the status register
        self.bus.write8(attribute_addr, CMD_ERASE_CONFIRM);
        self.bus.write8(command_addr, CMD_READ_STATUS);
        let status_register = self.bus.read8(data_addr);
        proof {
            assert(final(self).spec_bus_log() =~= old(self).spec_bus_log() + seq![
                NandBusOperation::Write {
                    address: old(self).spec_common_command(),
                    value: CMD_BLOCK_ERASE,
                },
                NandBusOperation::Write {
                    address: old(self).spec_common_address(),
                    value: (spec_row_of(address, old(self).spec_column_bits()->Some_0) % 256) as u8,
                },
                NandBusOperation::Write {
                    address: old(self).spec_common_address(),
                    value: ((spec_row_of(address, old(self).spec_column_bits()->Some_0) >> 8)
                        % 256) as u8,
                },
                NandBusOperation::Write {
                    address: old(self).spec_common_address(),
                    value: ((spec_row_of(address, old(self).spec_column_bits()->Some_0) >> 16)
                        % 256) as u8,
                },
                NandBusOperation::Write {
                    address: old(self).spec_attribute_command(),
                    value: CMD_ERASE_CONFIRM,
                },
                NandBusOperation::Write {
                    address: old(self).spec_common_command(),
                    value: CMD_READ_STATUS,
                },
                NandBusOperation::Read {
                    address: old(self).spec_common_data(),
                    value: status_register,
                },
            ]);
        }
        Status::from_register(status_register)
    }

    /// Page Read setup: write the setup command, the five address cycles and
    /// the confirm strobe, without the data phase. Useful when the data
    /// phase is carried out elsewhere, for example by DMA.
    ///
    /// For a method that completes the entire transaction see
    /// [`page_read`](Self::page_read).
    pub fn start_page_read(&mut self, address: usize, spare: bool)
        requires
            old(self).spec_column_bits() is Some,
            old(self).wf(),
        ensures
            Self::spec_same_windows(*old(self), *final(self)),
            final(self).spec_bus_log() == old(self).spec_bus_log() + old(
                self,
            ).spec_page_read_setup(address, spare),
    {
        let command_addr = self.common_command;
        let attribute_addr = self.attribute_command;
        self.bus.write8(command_addr, CMD_PAGE_READ);
        self.address(address, spare);
        self.bus.write8(attribute_addr, CMD_PAGE_READ_CONFIRM);
        proof {
            assert(self.spec_bus_log() =~= old(self).spec_bus_log() + old(
                self,
            ).spec_page_read_setup(address, spare));
        }
    }

    /// Page Read: start a page read at the given address and stream `count`
    /// bytes from the data window. When `spare` is set the read targets the
    /// spare area. Reading past the end of the page returns indeterminate
    /// values.
    pub fn page_read(&mut self, address: usize, spare: bool, count: usize) -> (r: Vec<u8>)
        requires
            old(self).spec_column_bits() is Some,
            old(self).wf(),
        ensures
            Self::spec_same_windows(*old(self), *final(self)),
            r@.len() == count,
            final(self).spec_bus_log() == old(self).spec_bus_log() + old(
                self,
            ).spec_page_read_setup(address, spare) + spec_reads(old(self).spec_common_data(), r@),
    {
        self.start_page_read(address, spare);
        let r = self.read_data(count);
        proof {
            assert(self.spec_bus_log() =~= old(self).spec_bus_log() + old(
                self,
            ).spec_page_read_setup(address, spare) + spec_reads(old(self).spec_common_data(), r@));
        }
        r
    }

    /// Page Program: write the page data at the given address, strobe the
    /// confirm command, poll the status register until the device reports
    /// the program complete, and decode its pass/fail status.
    pub fn page_program(&mut self, address: usize, spare: bool, page: &[u8]) -> (r: Status)
        requires
            old(self).spec_column_bits() is Some,
            old(self).wf(),
        ensures
            Self::spec_same_windows(*old(self), *final(self)),
            ({
                let setup = old(self).spec_page_program_setup(address, spare, page@);
                let done = old(self).spec_bus_log().len() + setup.len();
                &&& final(self).spec_bus_log().len() > done
                &&& final(self).spec_bus_log().subrange(0, done as int) == old(
                    self,
                ).spec_bus_log() + setup
                &&& spec_is_poll_trace(
                    final(self).spec_bus_log().skip(done as int),
                    old(self).spec_common_command(),
                    CMD_READ_STATUS,
                    old(self).spec_common_data(),
                    STATUS_READY_MASK,
                )
                &&& final(self).spec_bus_log().last() matches NandBusOperation::Read {
                    address,
                    value,
                } && address == old(self).spec_common_data() && r == spec_status_from_register(
                    value,
                )
            }),
    {
        let command_addr = self.common_command;
        let attribute_addr = self.attribute_command;
        let data_addr = self.common_data;

        // data input
        self.bus.write8(command_addr, CMD_PAGE_PROGRAM);
        self.address(address, spare);
        let ghost prefix = old(self).spec_bus_log() + seq![
            NandBusOperation::Write {
                address: old(self).spec_common_command(),
                value: CMD_PAGE_PROGRAM,
            },
        ] + old(self).spec_address_writes(address, spare);
        proof {
            assert(self.spec_bus_log() =~= prefix);
            assert(self.spec_bus_log() =~= prefix + spec_writes(
                old(self).spec_common_data(),
                page@.take(0int),
            ));
        }

        // write page
        let mut i: usize = 0;
        while i < page.len()
            invariant
                i <= page@.len(),
                Self::spec_same_windows(*old(self), *self),
                self.spec_bus_log() == prefix + spec_writes(
                    old(self).spec_common_data(),
                    page@.take(i as int),
                ),
            decreases page@.len() - i,
        {
            let addr = self.common_data;
            self.bus.write8(addr, page[i]);
            i = i + 1;
            proof {
                assert(spec_writes(old(self).spec_common_data(), page@.take(i as int)) =~=
                    spec_writes(old(self).spec_common_data(), page@.take(i - 1)).push(
                    NandBusOperation::Write {
                        address: old(self).spec_common_data(),
                        value: page@[i - 1],
                    },
                ));
                assert(self.spec_bus_log() =~= prefix + spec_writes(
                    old(self).spec_common_data(),
                    page@.take(i as int),
                ));
            }
        }
        proof {
            assert(page@.take(page@.len() as int) =~= page@);
        }

        // program command
        self.bus.write8(attribute_addr, CMD_PAGE_PROGRAM_CONFIRM);
        proof {
            assert(self.spec_bus_log() =~= old(self).spec_bus_log() + old(
                self,
            ).spec_page_program_setup(address, spare, page@));
        }

        // poll the status register until the program completes
        let status_register = self.bus.poll8(
            command_addr,
            CMD_READ_STATUS,
            data_addr,
            STATUS_READY_MASK,
        );
        Status::from_register(status_register)
    }
}

} // verus!
