//! Tests for the SDRAM mode register encoding.

use stm32_fmc::sdram::{decode_mode_register, encode_mode_register, SdramModeRegister};

#[test]
fn encode_reference_patterns() {
    // burst length 1, sequential, CAS 2, standard mode, single write burst
    let cas2 = SdramModeRegister {
        burst_length: 0,
        burst_type_interleaved: false,
        cas_latency: 2,
        operating_mode: 0,
        write_burst_single: true,
    };
    assert_eq!(encode_mode_register(&cas2), 0x0220);

    // the same settings with CAS 3
    let cas3 = SdramModeRegister { cas_latency: 3, ..cas2 };
    assert_eq!(encode_mode_register(&cas3), 0x0230);

    // burst length 8, interleaved, CAS 3, programmed write burst
    let full = SdramModeRegister {
        burst_length: 3,
        burst_type_interleaved: true,
        cas_latency: 3,
        operating_mode: 0,
        write_burst_single: false,
    };
    assert_eq!(encode_mode_register(&full), 0x003B);
}

#[test]
fn decode_reference_patterns() {
    let m = decode_mode_register(0x0220);
    assert_eq!(m.burst_length, 0);
    assert!(!m.burst_type_interleaved);
    assert_eq!(m.cas_latency, 2);
    assert_eq!(m.operating_mode, 0);
    assert!(m.write_burst_single);

    let m = decode_mode_register(0x003B);
    assert_eq!(m.burst_length, 3);
    assert!(m.burst_type_interleaved);
    assert_eq!(m.cas_latency, 3);
    assert_eq!(m.operating_mode, 0);
    assert!(!m.write_burst_single);
}

#[test]
fn encode_then_decode_recovers_the_settings() {
    for burst_length in 0..8u8 {
        for cas_latency in 0..8u8 {
            for operating_mode in 0..4u8 {
                for flags in 0..4u8 {
                    let m = SdramModeRegister {
                        burst_length,
                        burst_type_interleaved: flags & 1 == 1,
                        cas_latency,
                        operating_mode,
                        write_burst_single: flags & 2 == 2,
                    };
                    assert_eq!(decode_mode_register(encode_mode_register(&m)), m);
                }
            }
        }
    }
}
