//! Tests for the NAND device protocol and its decoders.

use stm32_fmc::FmcError;
use stm32_fmc::fmc::{FmcOperation, SimulatedFmc};
use stm32_fmc::nand::{Nand, NandConfiguration, NandPinRecord, NandTiming};
use stm32_fmc::nand_device::{
    split_address, NandBus, NandBusOperation, SimulatedNandBus, Status,
};

#[derive(Clone, Copy, Debug, PartialEq)]
struct TestChip {}

impl stm32_fmc::nand::NandChip for TestChip {
    fn config(&self) -> NandConfiguration {
        NandConfiguration { data_width: 8, column_bits: 9 }
    }

    fn timing(&self) -> NandTiming {
        NandTiming {
            nce_setup_time: 20,
            data_setup_time: 12,
            ale_hold_time: 5,
            cle_hold_time: 5,
            ale_to_nre_delay: 10,
            cle_to_nre_delay: 10,
            nre_pulse_width_ns: 12,
            nwe_pulse_width_ns: 12,
            read_cycle_time_ns: 25,
            write_cycle_time_ns: 25,
            nwe_high_to_busy_ns: 100,
        }
    }
}

// the NAND windows behind FMC bank 3
const DATA: u32 = 0x8000_0000;
const COMMAND: u32 = 0x8001_0000;
const ADDRESS: u32 = 0x8002_0000;
const ATTRIBUTE: u32 = 0x8801_0000;

fn device_with_script(
    script: Vec<u8>,
) -> stm32_fmc::nand_device::NandDevice<SimulatedNandBus> {
    let fmc = SimulatedFmc::new(100_000_000);
    let mut nand = match Nand::new(fmc, NandPinRecord { data_lines: 8 }, TestChip {}) {
        Ok(n) => n,
        Err(_) => panic!("the test chip must construct"),
    };
    match nand.init(SimulatedNandBus::new(script)) {
        Ok(d) => d,
        Err(_) => panic!("the test chip must initialise at 100 MHz"),
    }
}

#[test]
fn init_records_the_timing_program_and_resets_the_device() {
    let fmc = SimulatedFmc::new(100_000_000);
    let mut nand = match Nand::new(fmc, NandPinRecord { data_lines: 8 }, TestChip {}) {
        Ok(n) => n,
        Err(_) => panic!("the test chip must construct"),
    };
    let device = nand.init(SimulatedNandBus::new(Vec::new())).unwrap_or_else(|_| {
        panic!("the test chip must initialise at 100 MHz")
    });

    // 100 MHz source: 10 ns period; setup ceil(8/10)-1 = 0, wait
    // ceil(12/10)-1 = 1, hold 1 (cycle time already covered), attribute
    // hold ceil(100/10)-1 = 9, hiz ceil(20/10) = 2
    let expected = vec![
        FmcOperation::ModifyPcr {
            tar: 0,
            tclr: 0,
            eccps: 1,
            eccen: 0,
            pwid: 0,
            ptyp: 1,
            pwaiten: 1,
        },
        FmcOperation::ModifyPmem { memhiz: 2, memhold: 1, memwait: 1, memset: 0 },
        FmcOperation::ModifyPatt { atthiz: 2, atthold: 9, attwait: 1, attset: 0 },
        FmcOperation::EnableNandBank,
        FmcOperation::DelayMicroseconds { us: 1 },
    ];
    assert_eq!(*nand.operations(), expected);

    // the device starts with the mandatory reset command
    assert_eq!(
        *device.bus().events(),
        vec![NandBusOperation::Write { address: COMMAND, value: 0xFF }]
    );
}

#[test]
fn new_rejects_a_data_bus_width_mismatch() {
    let fmc = SimulatedFmc::new(100_000_000);
    match Nand::new(fmc, NandPinRecord { data_lines: 16 }, TestChip {}) {
        Err(e) => assert_eq!(e, FmcError::DataPins),
        Ok(_) => panic!("a data bus width mismatch must be rejected"),
    }
}

#[test]
fn read_id_decodes_the_reference_bytes() {
    // manufacturer 0xEC, device 0, one internal chip, undefined page size
    let mut device = device_with_script(vec![0xEC, 0x00, 0x00, 0x00, 0x00]);
    let id = device.read_id();
    assert_eq!(id.manufacturer_jedec, 0xEC);
    assert_eq!(id.device_jedec, 0x00);
    assert_eq!(id.internal_chip_count, 1);
    assert_eq!(id.page_size, 0);

    let events = device.bus().events();
    let expected = vec![
        NandBusOperation::Write { address: COMMAND, value: 0xFF },
        NandBusOperation::Write { address: COMMAND, value: 0x90 },
        NandBusOperation::Write { address: ADDRESS, value: 0x00 },
        NandBusOperation::Read { address: DATA, value: 0xEC },
        NandBusOperation::Read { address: DATA, value: 0x00 },
        NandBusOperation::Read { address: DATA, value: 0x00 },
        NandBusOperation::Read { address: DATA, value: 0x00 },
        NandBusOperation::Read { address: DATA, value: 0x00 },
    ];
    assert_eq!(*events, expected);
}

#[test]
fn read_id_decodes_chip_counts_and_page_sizes() {
    let mut device = device_with_script(vec![0x2C, 0xDC, 0x01, 0x02, 0x00]);
    let id = device.read_id();
    assert_eq!(id.manufacturer_jedec, 0x2C);
    assert_eq!(id.device_jedec, 0xDC);
    assert_eq!(id.internal_chip_count, 2);
    assert_eq!(id.page_size, 4096);

    let mut device = device_with_script(vec![0x2C, 0xDC, 0x02, 0x01, 0x00]);
    let id = device.read_id();
    assert_eq!(id.internal_chip_count, 4);
    assert_eq!(id.page_size, 2048);

    let mut device = device_with_script(vec![0x2C, 0xDC, 0x03, 0x03, 0x00]);
    let id = device.read_id();
    assert_eq!(id.internal_chip_count, 8);
    assert_eq!(id.page_size, 0);
}

#[test]
fn split_address_reference_values() {
    // column = 0x1234 masked to 9 bits = 0x34, row = 0x1234 >> 9 = 0x9
    assert_eq!(split_address(0x1234, 9, false), (0x34, 0x9));
    // the spare area sits one column span above
    assert_eq!(split_address(0x1234, 9, true), (0x234, 0x9));
    assert_eq!(split_address(0, 9, false), (0, 0));
}

#[test]
fn block_erase_writes_the_row_and_reads_back_the_status() {
    // row = 0x40000 >> 9 = 0x200: bytes 0x00, 0x02, 0x00
    let mut device = device_with_script(vec![0x00]);
    assert_eq!(device.block_erase(0x40000), Status::Success(0x00));

    let expected = vec![
        NandBusOperation::Write { address: COMMAND, value: 0xFF },
        NandBusOperation::Write { address: COMMAND, value: 0x60 },
        NandBusOperation::Write { address: ADDRESS, value: 0x00 },
        NandBusOperation::Write { address: ADDRESS, value: 0x02 },
        NandBusOperation::Write { address: ADDRESS, value: 0x00 },
        NandBusOperation::Write { address: ATTRIBUTE, value: 0xD0 },
        NandBusOperation::Write { address: COMMAND, value: 0x70 },
        NandBusOperation::Read { address: DATA, value: 0x00 },
    ];
    assert_eq!(*device.bus().events(), expected);
}

#[test]
fn block_erase_reports_a_failed_erase() {
    let mut device = device_with_script(vec![0x01]);
    assert_eq!(device.block_erase(0x40000), Status::Fail(0x01));
}

#[test]
fn page_read_streams_the_requested_bytes() {
    let mut device = device_with_script(vec![0xAB, 0xCD, 0xEF]);
    let page = device.page_read(0x1234, false, 3);
    assert_eq!(page, vec![0xAB, 0xCD, 0xEF]);

    let expected = vec![
        NandBusOperation::Write { address: COMMAND, value: 0xFF },
        NandBusOperation::Write { address: COMMAND, value: 0x00 },
        // column 0x34, row 0x9
        NandBusOperation::Write { address: ADDRESS, value: 0x34 },
        NandBusOperation::Write { address: ADDRESS, value: 0x00 },
        NandBusOperation::Write { address: ADDRESS, value: 0x09 },
        NandBusOperation::Write { address: ADDRESS, value: 0x00 },
        NandBusOperation::Write { address: ADDRESS, value: 0x00 },
        NandBusOperation::Write { address: ATTRIBUTE, value: 0x30 },
        NandBusOperation::Read { address: DATA, value: 0xAB },
        NandBusOperation::Read { address: DATA, value: 0xCD },
        NandBusOperation::Read { address: DATA, value: 0xEF },
    ];
    assert_eq!(*device.bus().events(), expected);
}

#[test]
fn page_read_spare_area_offsets_the_column() {
    let mut device = device_with_script(vec![0x11]);
    let page = device.page_read(0x1234, true, 1);
    assert_eq!(page, vec![0x11]);

    // column 0x34 + 0x200 = 0x234: bytes 0x34, 0x02
    let events = device.bus().events();
    assert_eq!(events[2], NandBusOperation::Write { address: ADDRESS, value: 0x34 });
    assert_eq!(events[3], NandBusOperation::Write { address: ADDRESS, value: 0x02 });
}

#[test]
fn page_program_polls_until_the_device_is_ready() {
    // two busy statuses, then ready with the fail bit clear
    let mut device = device_with_script(vec![0x00, 0x00, 0x60]);
    let status = device.page_program(0x1234, false, &[0xAA, 0xBB]);
    assert_eq!(status, Status::Success(0x60));

    let expected = vec![
        NandBusOperation::Write { address: COMMAND, value: 0xFF },
        NandBusOperation::Write { address: COMMAND, value: 0x80 },
        NandBusOperation::Write { address: ADDRESS, value: 0x34 },
        NandBusOperation::Write { address: ADDRESS, value: 0x00 },
        NandBusOperation::Write { address: ADDRESS, value: 0x09 },
        NandBusOperation::Write { address: ADDRESS, value: 0x00 },
        NandBusOperation::Write { address: ADDRESS, value: 0x00 },
        NandBusOperation::Write { address: DATA, value: 0xAA },
        NandBusOperation::Write { address: DATA, value: 0xBB },
        NandBusOperation::Write { address: ATTRIBUTE, value: 0x10 },
        NandBusOperation::Write { address: COMMAND, value: 0x70 },
        NandBusOperation::Read { address: DATA, value: 0x00 },
        NandBusOperation::Write { address: COMMAND, value: 0x70 },
        NandBusOperation::Read { address: DATA, value: 0x00 },
        NandBusOperation::Write { address: COMMAND, value: 0x70 },
        NandBusOperation::Read { address: DATA, value: 0x60 },
    ];
    assert_eq!(*device.bus().events(), expected);
}

#[test]
fn page_program_reports_a_failed_program() {
    // ready at once, with the fail bit set
    let mut device = device_with_script(vec![0x21]);
    let status = device.page_program(0, false, &[0x55]);
    assert_eq!(status, Status::Fail(0x21));
}

#[test]
fn read_unique_id_is_little_endian() {
    let mut script = vec![0x78, 0x56, 0x34, 0x12];
    script.resize(16, 0);
    let mut device = device_with_script(script);
    assert_eq!(device.read_unique_id(), 0x1234_5678);
}

#[test]
fn status_from_register_decodes_the_fail_bit() {
    assert_eq!(Status::from_register(0x00), Status::Success(0x00));
    assert_eq!(Status::from_register(0x60), Status::Success(0x60));
    assert_eq!(Status::from_register(0x01), Status::Fail(0x01));
    assert_eq!(Status::from_register(0x61), Status::Fail(0x61));
}

#[test]
fn simulated_bus_answers_reads_in_order_and_logs_everything() {
    let mut bus = SimulatedNandBus::new(vec![1, 2]);
    bus.write8(0x10, 0xAB);
    assert_eq!(bus.read8(0x20), 1);
    assert_eq!(bus.read8(0x20), 2);
    // the script is exhausted: the bus floats high
    assert_eq!(bus.read8(0x20), 0xFF);
    let expected = vec![
        NandBusOperation::Write { address: 0x10, value: 0xAB },
        NandBusOperation::Read { address: 0x20, value: 1 },
        NandBusOperation::Read { address: 0x20, value: 2 },
        NandBusOperation::Read { address: 0x20, value: 0xFF },
    ];
    assert_eq!(*bus.events(), expected);
}
