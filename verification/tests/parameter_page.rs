//! Tests for the ONFI parameter page decoding.

use stm32_fmc::fmc::SimulatedFmc;
use stm32_fmc::nand::{Nand, NandConfiguration, NandPinRecord, NandTiming};
use stm32_fmc::nand_device::{NandDevice, SimulatedNandBus};

#[derive(Clone, Copy, Debug, PartialEq)]
struct TestChip {}

impl stm32_fmc::nand::NandChip for TestChip {
    fn config(&self) -> NandConfiguration {
        NandConfiguration { data_width: 8, column_bits: 11 }
    }

    fn timing(&self) -> NandTiming {
        NandTiming {
            nce_setup_time: 20,
            data_setup_time: 12,
            ale_hold_time: 5,
            cle_hold_time: 5,
            ale_to_nre_delay: 10,
            cle_to_nre_delay: 10,
            nre_pulse_width_ns: 12,
            nwe_pulse_width_ns: 12,
            read_cycle_time_ns: 25,
            write_cycle_time_ns: 25,
            nwe_high_to_busy_ns: 100,
        }
    }
}

fn device_with_script(script: Vec<u8>) -> NandDevice<SimulatedNandBus> {
    let fmc = SimulatedFmc::new(100_000_000);
    let mut nand = match Nand::new(fmc, NandPinRecord { data_lines: 8 }, TestChip {}) {
        Ok(n) => n,
        Err(_) => panic!("the test chip must construct"),
    };
    match nand.init(SimulatedNandBus::new(script)) {
        Ok(d) => d,
        Err(_) => panic!("the test chip must initialise at 100 MHz"),
    }
}

fn reference_page() -> Vec<u8> {
    let mut page = vec![0u8; 115];
    page[0..4].copy_from_slice(b"ONFI");
    // revision 2, little endian
    page[4] = 0x02;
    page[5] = 0x00;
    page[32..44].copy_from_slice(b"MICRON      ");
    page[44..64].copy_from_slice(b"MT29F8G08ABACAWP    ");
    // date code
    page[65] = 0x34;
    page[66] = 0x12;
    // 4096 data bytes per page
    page[80] = 0x00;
    page[81] = 0x10;
    page[82] = 0x00;
    page[83] = 0x00;
    // 224 spare bytes per page
    page[84] = 0xE0;
    page[85] = 0x00;
    // 128 pages per block
    page[92] = 0x80;
    page[93] = 0x00;
    page[94] = 0x00;
    page[95] = 0x00;
    // 2048 blocks per LUN
    page[96] = 0x00;
    page[97] = 0x08;
    page[98] = 0x00;
    page[99] = 0x00;
    // one LUN
    page[100] = 0x01;
    // 4 bits of ECC correctability
    page[112] = 0x04;
    page
}

#[test]
fn parameter_page_decodes_the_fixed_offsets() {
    let mut device = device_with_script(reference_page());
    let page = device.read_parameter_page();

    assert_eq!(&page.signature, b"ONFI");
    assert_eq!(page.onfi_revision, 2);
    assert_eq!(&page.manufacturer, b"MICRON      ");
    assert_eq!(&page.model, b"MT29F8G08ABACAWP    ");
    assert_eq!(page.date_code, 0x1234);
    assert_eq!(page.data_bytes_per_page, 4096);
    assert_eq!(page.spare_bytes_per_page, 224);
    assert_eq!(page.pages_per_block, 128);
    assert_eq!(page.blocks_per_lun, 2048);
    assert_eq!(page.lun_count, 1);
    assert_eq!(page.ecc_bits, 4);

    assert_eq!(page.manufacturer(), "MICRON      ");
    assert_eq!(page.model(), "MT29F8G08ABACAWP    ");
}

#[test]
fn parameter_page_names_fall_back_on_invalid_utf8() {
    let mut raw = reference_page();
    for b in raw[32..44].iter_mut() {
        *b = 0xFF;
    }
    for b in raw[44..64].iter_mut() {
        *b = 0xFE;
    }
    let mut device = device_with_script(raw);
    let page = device.read_parameter_page();
    assert_eq!(page.manufacturer(), "<ERR>");
    assert_eq!(page.model(), "<ERR>");
}
