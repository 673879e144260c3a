use ftdaye::compacter::{compact_commands, Command, CommandCompacter};
use ftdaye::error::JtagError;

fn tms(bit_count: u8, tms_bits: u8, capture: bool) -> Command {
    Command::TmsBits {
        bit_count,
        tms_bits,
        tdi: false,
        capture,
    }
}

fn bits_to_u32(bits: &[bool]) -> u32 {
    bits.iter()
        .enumerate()
        .fold(0u32, |acc, (i, b)| acc | ((*b as u32) << i))
}

#[test]
fn idcode_through_captured_tms_steps() {
    let mut c = CommandCompacter::new();
    c.append_command(tms(5, 0b11111, false)).unwrap();
    c.append_command(tms(4, 0b0010, false)).unwrap();
    for _ in 0..8 {
        c.append_command(tms(4, 0b0000, true)).unwrap();
    }
    let mut expected = vec![0x4b, 4, 0b11111, 0x4b, 3, 0b0010];
    for _ in 0..8 {
        expected.extend_from_slice(&[0x6b, 3, 0b0000]);
    }
    expected.push(0x87);
    assert_eq!(c.flush_commands(), expected);
    assert_eq!(c.expected_response_len(), 8);
    // each answer holds its four captured bits in its high nibble
    let answer = [0x30, 0x90, 0x00, 0xd0, 0x20, 0x60, 0x30, 0x00];
    c.complete_flush(&answer).unwrap();
    assert_eq!(c.queued_len(), 0);
    let bits = c.read_captured_bits().unwrap();
    assert_eq!(bits.len(), 32);
    assert_eq!(bits_to_u32(&bits), 0x0362_d093);
    assert_eq!(c.read_captured_bits(), Err(JtagError::NothingCaptured));
}

#[test]
fn neighbouring_steps_merge() {
    let merged = compact_commands(&[
        tms(3, 0b101, false),
        tms(2, 0b11, false),
        tms(2, 0b01, false),
        tms(1, 0b1, false),
        Command::TdiBits {
            bit_count: 3,
            tdi_bits: 0b110,
            capture: true,
        },
        Command::TdiBits {
            bit_count: 5,
            tdi_bits: 0b1_0011,
            capture: true,
        },
        Command::TdiBits {
            bit_count: 1,
            tdi_bits: 1,
            capture: true,
        },
    ]);
    assert_eq!(
        merged,
        vec![
            tms(7, 0b01_11_101, false),
            tms(1, 0b1, false),
            Command::TdiBits {
                bit_count: 8,
                tdi_bits: 0b10011_110,
                capture: true,
            },
            Command::TdiBits {
                bit_count: 1,
                tdi_bits: 1,
                capture: true,
            },
        ]
    );
}

#[test]
fn steps_that_differ_do_not_merge() {
    let steps = [
        tms(2, 0b11, false),
        tms(2, 0b11, true),
        Command::TmsBits {
            bit_count: 2,
            tms_bits: 0b11,
            tdi: true,
            capture: true,
        },
        Command::TdiBits {
            bit_count: 2,
            tdi_bits: 0b01,
            capture: true,
        },
    ];
    assert_eq!(compact_commands(&steps), steps.to_vec());
    let mut c = CommandCompacter::new();
    for s in steps {
        c.append_command(s).unwrap();
    }
    assert_eq!(
        c.flush_commands(),
        vec![0x4b, 1, 0b11, 0x6b, 1, 0b11, 0x6b, 1, 0x83, 0x3b, 1, 0b01, 0x87]
    );
}

#[test]
fn stray_pattern_bits_are_dropped() {
    let mut c = CommandCompacter::new();
    c.append_command(tms(2, 0xff, false)).unwrap();
    c.append_command(Command::TdiBits {
        bit_count: 3,
        tdi_bits: 0xff,
        capture: false,
    })
    .unwrap();
    assert_eq!(c.flush_commands(), vec![0x4b, 1, 0b11, 0x1b, 2, 0b111, 0x87]);
    assert_eq!(c.expected_response_len(), 0);
    c.complete_flush(&[]).unwrap();
    assert_eq!(c.read_captured_bits(), Err(JtagError::NothingCaptured));
}

#[test]
fn zero_bit_tdi_step_is_refused() {
    let mut c = CommandCompacter::new();
    assert_eq!(
        c.append_command(Command::TdiBits {
            bit_count: 0,
            tdi_bits: 0,
            capture: true,
        }),
        Err(JtagError::InvalidLength)
    );
    assert_eq!(c.queued_len(), 0);
    assert!(c.flush_commands().is_empty());
    assert_eq!(
        c.append_command(Command::TdiBits {
            bit_count: 9,
            tdi_bits: 0,
            capture: false,
        }),
        Err(JtagError::InvalidLength)
    );
    assert_eq!(c.append_command(tms(8, 0, false)), Err(JtagError::InvalidLength));
    assert_eq!(c.append_command(tms(0, 0, false)), Err(JtagError::InvalidLength));
    assert_eq!(c.queued_len(), 0);
}

#[test]
fn empty_flush_is_a_no_op() {
    let mut c = CommandCompacter::new();
    assert!(c.flush_commands().is_empty());
    assert_eq!(c.expected_response_len(), 0);
    assert_eq!(c.complete_flush(&[]), Ok(()));
    assert_eq!(c.read_captured_bits(), Err(JtagError::NothingCaptured));
}

#[test]
fn short_or_long_answers_are_desyncs() {
    let mut c = CommandCompacter::new();
    c.append_command(tms(3, 0, true)).unwrap();
    c.append_command(Command::TdiBits {
        bit_count: 2,
        tdi_bits: 0,
        capture: true,
    })
    .unwrap();
    assert_eq!(c.expected_response_len(), 2);
    assert_eq!(c.complete_flush(&[0xff]), Err(JtagError::ProtocolDesync));
    assert_eq!(c.complete_flush(&[0, 0, 0]), Err(JtagError::ProtocolDesync));
    assert_eq!(c.queued_len(), 2);
    // three bits from the top of 0b101x_xxxx, two from the top of 0b10xx_xxxx
    c.complete_flush(&[0b1010_0000, 0b1000_0000]).unwrap();
    assert_eq!(
        c.read_captured_bits().unwrap(),
        vec![true, false, true, false, true]
    );
}
