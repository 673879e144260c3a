use ftdaye::error::JtagError;
use ftdaye::mpsse::{
    cmd_read_imm, cmd_read_write_imm, cmd_shift, cmd_write_imm,
    Clock_Data_Bits_In_on_pos_ve_and_Out_on_neg_ve_LSB_first,
    Clock_Data_Bits_Out_on_neg_ve_LSB_first, Clock_Data_Bytes_In_on_pos_ve_LSB_first,
    Clock_Data_Bytes_In_on_pos_ve_and_Out_on_neg_ve_LSB_first,
    Clock_Data_Bytes_Out_on_neg_ve_LSB_first, Clock_Data_to_TMS_In_on_pos_ve_Out_on_neg_ve_LSB_first,
    Clock_Data_to_TMS_on_neg_ve_LSB_first, CmdImm, ShiftCommand,
};

#[test]
fn test_cmd_write_imm_min() {
    assert_eq!(
        &cmd_read_write_imm(&[0x12]).unwrap(),
        &[0x39, 0, 0, 0x12, 0x87]
    );
}

#[test]
fn test_cmd_write_imm_max() {
    let cmd = cmd_read_write_imm(&[0u8; 65536]).unwrap();
    assert_eq!(cmd[1], 0xff);
    assert_eq!(cmd[2], 0xff);
}

#[test]
fn test_cmd_write_imm_0() {
    assert_eq!(cmd_read_write_imm(&[]), Err(JtagError::InvalidLength));
}

#[test]
fn test_cmd_write_imm_too_large() {
    assert_eq!(
        cmd_read_write_imm(&[0u8; 65537]),
        Err(JtagError::InvalidLength)
    );
}

#[test]
fn test_constants() {
    assert_eq!(
        Clock_Data_Bytes_In_on_pos_ve_and_Out_on_neg_ve_LSB_first,
        0x39
    );
    assert_eq!(Clock_Data_Bytes_In_on_pos_ve_LSB_first, 0x28);
    assert_eq!(Clock_Data_Bytes_Out_on_neg_ve_LSB_first, 0x19);
}

#[test]
fn constants_are_their_flag_packings() {
    assert_eq!(
        cmd_shift(true, false, false, true, true, true, false),
        Clock_Data_Bytes_In_on_pos_ve_and_Out_on_neg_ve_LSB_first
    );
    assert_eq!(
        cmd_shift(false, false, false, true, false, true, false),
        Clock_Data_Bytes_In_on_pos_ve_LSB_first
    );
    assert_eq!(
        cmd_shift(true, false, false, true, true, false, false),
        Clock_Data_Bytes_Out_on_neg_ve_LSB_first
    );
    assert_eq!(
        cmd_shift(true, true, false, true, true, false, false),
        Clock_Data_Bits_Out_on_neg_ve_LSB_first
    );
    assert_eq!(
        cmd_shift(true, true, false, true, true, true, false),
        Clock_Data_Bits_In_on_pos_ve_and_Out_on_neg_ve_LSB_first
    );
    assert_eq!(Clock_Data_to_TMS_on_neg_ve_LSB_first, 0x4b);
    assert_eq!(Clock_Data_to_TMS_In_on_pos_ve_Out_on_neg_ve_LSB_first, 0x6b);
    assert_eq!(
        cmd_shift(true, true, false, true, false, true, true),
        Clock_Data_to_TMS_In_on_pos_ve_Out_on_neg_ve_LSB_first
    );
    assert_eq!(CmdImm, 0x87);
}

#[test]
fn shift_command_round_trips_through_its_byte() {
    for b in 0u8..=0x7f {
        let c = ShiftCommand::decode(b);
        assert_eq!(c.encode(), b);
        assert_eq!(ShiftCommand::decode(c.encode()), c);
    }
    let c = ShiftCommand {
        neg_ve_clk_write: true,
        bit_mode: false,
        neg_ve_clk_read: true,
        lsb_first: false,
        write_tdi: true,
        read_tdo: false,
        write_tms: true,
    };
    assert_eq!(c.encode(), 0b101_0101);
    assert_eq!(ShiftCommand::decode(0xd5), c);
}

#[test]
fn full_duplex_shift_of_deadbeef() {
    let cmd = cmd_read_write_imm(&[0xDE, 0xAD, 0xBE, 0xEF]).unwrap();
    assert_eq!(cmd, vec![0x39, 0x03, 0x00, 0xDE, 0xAD, 0xBE, 0xEF, 0x87]);
}

#[test]
fn length_header_is_length_less_one_little_endian() {
    for n in [1usize, 2, 255, 256, 257, 4096, 65535, 65536] {
        let data = vec![0xA5u8; n];
        let w = cmd_write_imm(&data).unwrap();
        assert_eq!(w[0], 0x19);
        assert_eq!(w[1] as usize + 256 * w[2] as usize, n - 1);
        assert_eq!(w.len(), n + 4);
        assert_eq!(w[n + 3], 0x87);
        let r = cmd_read_imm(n).unwrap();
        assert_eq!(r, vec![0x28, ((n - 1) % 256) as u8, ((n - 1) / 256) as u8, 0x87]);
    }
    assert_eq!(cmd_write_imm(&[0x01, 0x02]).unwrap(), vec![0x19, 1, 0, 1, 2, 0x87]);
    assert_eq!(cmd_read_imm(257).unwrap(), vec![0x28, 0x00, 0x01, 0x87]);
}

#[test]
fn out_of_range_lengths_are_refused() {
    assert_eq!(cmd_write_imm(&[]), Err(JtagError::InvalidLength));
    assert_eq!(cmd_write_imm(&[0u8; 65537]), Err(JtagError::InvalidLength));
    assert_eq!(cmd_read_imm(0), Err(JtagError::InvalidLength));
    assert_eq!(cmd_read_imm(65537), Err(JtagError::InvalidLength));
}
