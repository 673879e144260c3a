use ftdaye::error::JtagError;
use ftdaye::jtag::{clock_divisor, speed_khz_for, FtdiMpsse, TapState};

fn driver(ir_width: u8) -> FtdiMpsse {
    let mut ft = FtdiMpsse::new(ir_width, 1000).unwrap();
    assert_eq!(ft.take_output(), vec![0xAB]);
    ft
}

#[test]
fn register_read_of_idcode() {
    let mut ft = driver(6);
    ft.read_write_register(0b001001, &[0u8; 4]).unwrap();
    assert_eq!(
        ft.take_output(),
        vec![
            0x4b, 3, 0b0011, 0x87, // to Shift-IR
            0x1b, 4, 0b001001, 0x87, // the low five instruction bits
            0x4b, 2, 0b011, 0x87, // exit with the top instruction bit, here 0
            0x4b, 2, 0b001, 0x87, // to Shift-DR
            0x39, 3, 0, 0, 0, 0, 0, 0x87, // four don't-care bytes, full duplex
            0x4b, 2, 0b011, 0x87, // back to Run-Test/Idle
        ]
    );
    assert_eq!(ft.expected_response_len(), 4);
    let data = ft.take_response(&[0x93, 0xd0, 0x62, 0x03]).unwrap();
    assert_eq!(u32::from_le_bytes([data[0], data[1], data[2], data[3]]), 0x0362_d093);
    assert_eq!(ft.expected_response_len(), 0);
}

#[test]
fn top_instruction_bit_rides_on_the_exit() {
    let mut ft = driver(6);
    ft.shift_ir(0b100010);
    assert_eq!(
        ft.take_output(),
        vec![0x1b, 4, 0b100010, 0x87, 0x4b, 2, 0x80 | 0b011, 0x87]
    );
    let mut ft = driver(4);
    ft.shift_ir(0b1100);
    assert_eq!(
        ft.take_output(),
        vec![0x1b, 2, 0b1100, 0x87, 0x4b, 2, 0x83, 0x87]
    );
}

#[test]
fn read_register_uses_a_read_only_shift() {
    let mut ft = driver(5);
    ft.read_register(0b01100, 3).unwrap();
    let out = ft.take_output();
    assert_eq!(&out[4..12], &[0x1b, 3, 0b01100, 0x87, 0x4b, 2, 0b011, 0x87]);
    assert_eq!(&out[16..20], &[0x28, 2, 0, 0x87]);
    assert_eq!(out.len(), 24);
    assert_eq!(ft.take_response(&[1, 2]), Err(JtagError::ProtocolDesync));
    assert_eq!(ft.take_response(&[1, 2, 3]).unwrap(), vec![1, 2, 3]);
}

#[test]
fn write_register_then_buffer_check() {
    let mut ft = driver(6);
    ft.write_register(0b100010, &[0xDE, 0xAD, 0xBE, 0xEF]).unwrap();
    let out = ft.take_output();
    assert_eq!(&out[16..24], &[0x19, 3, 0, 0xDE, 0xAD, 0xBE, 0xEF, 0x87]);
    assert_eq!(ft.expected_response_len(), 0);
    assert_eq!(ft.assert_ftdi_buffer_empty(&[]), Ok(()));
    assert_eq!(
        ft.assert_ftdi_buffer_empty(&[0xfa]),
        Err(JtagError::ProtocolDesync)
    );
}

#[test]
fn register_operations_refuse_bad_lengths_and_queue_nothing() {
    let mut ft = driver(6);
    assert_eq!(ft.write_register(1, &[]), Err(JtagError::InvalidLength));
    assert_eq!(ft.read_write_register(1, &[]), Err(JtagError::InvalidLength));
    assert_eq!(ft.read_register(1, 0), Err(JtagError::InvalidLength));
    assert_eq!(ft.read_register(1, 65537), Err(JtagError::InvalidLength));
    assert!(ft.take_output().is_empty());
    assert_eq!(ft.expected_response_len(), 0);
}

#[test]
fn transitions_are_the_fixed_tms_sequences() {
    let mut ft = driver(6);
    ft.reset_and_to_rti();
    assert_eq!(
        ft.take_output(),
        vec![0x4b, 4, 0b11111, 0x87, 0x4b, 0, 0b0, 0x87]
    );
    ft.rti_to_shift_dr();
    assert_eq!(ft.take_output(), vec![0x4b, 2, 0b001, 0x87]);
    ft.rti_to_shift_ir();
    assert_eq!(ft.take_output(), vec![0x4b, 3, 0b0011, 0x87]);
    ft.dr_to_rti();
    assert_eq!(ft.take_output(), vec![0x4b, 2, 0b011, 0x87]);
    ft.ir_to_rti(0x80);
    assert_eq!(ft.take_output(), vec![0x4b, 2, 0x83, 0x87]);
}

#[test]
fn tap_paths() {
    assert_eq!(
        TapState::ShiftDr.path_to(TapState::TestLogicReset),
        Some((5, 0b11111))
    );
    assert_eq!(
        TapState::RunTestIdle.path_to(TapState::ShiftIr),
        Some((4, 0b0011))
    );
    assert_eq!(TapState::ShiftIr.path_to(TapState::ShiftDr), None);
}

#[test]
fn clock_divisors() {
    assert_eq!(clock_divisor(1000), 29);
    assert_eq!(speed_khz_for(29), 1000);
    assert_eq!(clock_divisor(7000), 4);
    assert_eq!(speed_khz_for(4), 6000);
    assert_eq!(clock_divisor(0), 0);
    assert_eq!(speed_khz_for(0), 30000);
    assert_eq!(clock_divisor(30000), 0);
    assert_eq!(clock_divisor(40000), 0);
    assert_eq!(clock_divisor(1), 29999);
    assert_eq!(speed_khz_for(29999), 1);
    let ft = FtdiMpsse::new(6, 7000).unwrap();
    assert_eq!(ft.clock_divisor(), 4);
    assert_eq!(ft.actual_speed_khz(), 6000);
    assert_eq!(ft.ir_width(), 6);
    assert_eq!(ft.buffer_size_bytes(), 4096);
}

#[test]
fn instruction_width_is_checked() {
    assert_eq!(FtdiMpsse::new(1, 1000).err(), Some(JtagError::InvalidLength));
    assert_eq!(FtdiMpsse::new(9, 1000).err(), Some(JtagError::InvalidLength));
    assert!(FtdiMpsse::new(2, 1000).is_ok());
    assert!(FtdiMpsse::new(8, 1000).is_ok());
}

#[test]
fn bad_command_echo() {
    let ft = driver(6);
    assert_eq!(ft.check_sync(&[0xfa, 0xab]), Ok(()));
    assert_eq!(ft.check_sync(&[0xfa]), Err(JtagError::ProtocolDesync));
    assert_eq!(ft.check_sync(&[0xab, 0xfa]), Err(JtagError::ProtocolDesync));
    assert_eq!(ft.check_sync(&[]), Err(JtagError::ProtocolDesync));
}
