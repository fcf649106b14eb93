//! Tests for the NAND timing derivation.

use stm32_fmc::FmcError;
use stm32_fmc::nand::{derive_nand_timing, NandConfiguration, NandTiming, NandTimingValues};

fn reference_config() -> NandConfiguration {
    NandConfiguration { data_width: 8, column_bits: 9 }
}

fn reference_timing() -> NandTiming {
    NandTiming {
        nce_setup_time: 20,
        data_setup_time: 12,
        ale_hold_time: 5,
        cle_hold_time: 5,
        ale_to_nre_delay: 10,
        cle_to_nre_delay: 10,
        nre_pulse_width_ns: 12,
        nwe_pulse_width_ns: 12,
        read_cycle_time_ns: 25,
        write_cycle_time_ns: 25,
        nwe_high_to_busy_ns: 100,
    }
}

#[test]
fn reference_fields_at_five_nanosecond_period() {
    // setup ceil((20-12)/5) = 2, minus one;
    // wait ceil(12/5) = 3, minus one;
    // hold ceil(5/5) = 1, cycle ceil(25/5) = 5 already covered by 2+1+1+1+1;
    // attribute hold ceil(100/5) - 1 = 19;
    // hiz ceil((20+12-12)/5) = 4
    let v = derive_nand_timing(&reference_config(), &reference_timing(), 5);
    assert_eq!(
        v,
        Ok(NandTimingValues {
            set: 1,
            wait: 2,
            hold: 1,
            attribute_hold: 19,
            hiz: 4,
            tar: 0,
            tclr: 0,
            pwid: 0,
        })
    );
}

#[test]
fn hold_is_stretched_to_cover_the_cycle_time() {
    // a 60 ns read cycle needs 12 periods, but wait+1+hold+set+1 gives only
    // 6: the hold must grow from 1 to 12 - 2 - 1 - 2 = 7
    let mut t = reference_timing();
    t.read_cycle_time_ns = 60;
    let v = derive_nand_timing(&reference_config(), &t, 5).unwrap();
    assert_eq!(v.hold, 7);
    // the four phases now exactly cover the cycle time
    assert_eq!(v.wait + 1 + v.hold + v.set + 1, 12);
}

#[test]
fn sixteen_bit_devices_encode_their_width() {
    let c = NandConfiguration { data_width: 16, column_bits: 9 };
    let v = derive_nand_timing(&c, &reference_timing(), 5).unwrap();
    assert_eq!(v.pwid, 1);
}

#[test]
fn rejects_unknown_data_widths() {
    let c = NandConfiguration { data_width: 32, column_bits: 9 };
    assert_eq!(derive_nand_timing(&c, &reference_timing(), 5), Err(FmcError::NandDataWidth));
}

#[test]
fn rejects_a_zero_clock_period() {
    assert_eq!(
        derive_nand_timing(&reference_config(), &reference_timing(), 0),
        Err(FmcError::NandClockPeriod)
    );
}

#[test]
fn rejects_each_field_out_of_range() {
    // setup reaches the reserved 255
    let mut t = reference_timing();
    t.nce_setup_time = 300_000;
    assert_eq!(derive_nand_timing(&reference_config(), &t, 1), Err(FmcError::NandSetupRange));

    // wait reaches the reserved 255
    let mut t = reference_timing();
    t.nre_pulse_width_ns = 300_000;
    assert_eq!(derive_nand_timing(&reference_config(), &t, 1), Err(FmcError::NandWaitRange));

    // hold reaches the reserved 255 directly
    let mut t = reference_timing();
    t.ale_hold_time = 300_000;
    assert_eq!(derive_nand_timing(&reference_config(), &t, 1), Err(FmcError::NandHoldRange));

    // hold reaches the reserved 255 by stretching to the cycle time
    let mut t = reference_timing();
    t.read_cycle_time_ns = 1_000;
    assert_eq!(derive_nand_timing(&reference_config(), &t, 1), Err(FmcError::NandHoldRange));

    // attribute hold reaches the reserved 255
    let mut t = reference_timing();
    t.nwe_high_to_busy_ns = 300_000;
    assert_eq!(
        derive_nand_timing(&reference_config(), &t, 1),
        Err(FmcError::NandAttributeHoldRange)
    );

    // bus turnaround reaches the reserved 255
    let mut t = reference_timing();
    t.nce_setup_time = 200;
    t.nwe_pulse_width_ns = 100;
    t.data_setup_time = 0;
    t.read_cycle_time_ns = 0;
    t.write_cycle_time_ns = 0;
    t.nre_pulse_width_ns = 0;
    assert_eq!(derive_nand_timing(&reference_config(), &t, 1), Err(FmcError::NandHizRange));

    // ALE-to-read delay over its 4-bit field
    let t = NandTiming {
        nce_setup_time: 0,
        data_setup_time: 0,
        ale_hold_time: 0,
        cle_hold_time: 0,
        ale_to_nre_delay: 100,
        cle_to_nre_delay: 0,
        nre_pulse_width_ns: 0,
        nwe_pulse_width_ns: 98,
        read_cycle_time_ns: 0,
        write_cycle_time_ns: 0,
        nwe_high_to_busy_ns: 0,
    };
    assert_eq!(derive_nand_timing(&reference_config(), &t, 1), Err(FmcError::NandTarRange));

    // CLE-to-read delay over its 4-bit field
    let t = NandTiming { ale_to_nre_delay: 0, cle_to_nre_delay: 100, ..t };
    assert_eq!(derive_nand_timing(&reference_config(), &t, 1), Err(FmcError::NandTclrRange));
}

#[test]
fn negative_times_never_underflow_the_cycle_counts() {
    // a chip sheet can put a phase fully inside another: the differences go
    // below zero and every affected field clamps at its minimum
    let t = NandTiming {
        nce_setup_time: -5,
        data_setup_time: 50,
        ale_hold_time: -1,
        cle_hold_time: -1,
        ale_to_nre_delay: -10,
        cle_to_nre_delay: -10,
        nre_pulse_width_ns: -3,
        nwe_pulse_width_ns: -3,
        read_cycle_time_ns: -25,
        write_cycle_time_ns: -25,
        nwe_high_to_busy_ns: -100,
    };
    let v = derive_nand_timing(&reference_config(), &t, 5).unwrap();
    assert_eq!(
        v,
        NandTimingValues {
            set: 0,
            wait: 1,
            hold: 1,
            attribute_hold: 1,
            hiz: 0,
            tar: 0,
            tclr: 0,
            pwid: 0,
        }
    );
}

#[test]
fn nand_derivation_is_deterministic() {
    let c = reference_config();
    let t = reference_timing();
    assert_eq!(derive_nand_timing(&c, &t, 5), derive_nand_timing(&c, &t, 5));
}
