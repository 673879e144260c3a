//! The TAP driver: fixed TMS sequences between the named TAP states, and
//! register operations composed from them, as a stream of MPSSE commands.

use crate::error::JtagError;
use crate::mpsse::{
    bit_set, byte_read, byte_shift, cmd_read_imm, cmd_read_write_imm, cmd_write_imm,
    valid_payload_len, BadCommandReply, Clock_Data_Bits_Out_on_neg_ve_LSB_first,
    Clock_Data_Bytes_In_on_pos_ve_and_Out_on_neg_ve_LSB_first,
    Clock_Data_Bytes_Out_on_neg_ve_LSB_first, Clock_Data_to_TMS_on_neg_ve_LSB_first,
    CmdBadCommand, CmdImm,
};
use vstd::prelude::*;

verus! {

/// The TAP states that the driver moves between; the states in between are
/// passed inside the fixed TMS sequences.
#[derive(Debug, Clone, Copy, PartialEq, Eq, Structural)]
pub enum TapState {
    TestLogicReset,
    RunTestIdle,
    ShiftIr,
    ShiftDr,
}

/// The TMS sequence, as bit count and pattern sent LSB first, that leads from
/// `from` to `to`, where there is a fixed one.
pub open spec fn tms_path(from: TapState, to: TapState) -> Option<(u8, u8)> {
    match (from, to) {
        (_, TapState::TestLogicReset) => Some((5, 0b11111)),
        (TapState::TestLogicReset, TapState::RunTestIdle) => Some((1, 0b0)),
        (TapState::RunTestIdle, TapState::ShiftDr) => Some((3, 0b001)),
        (TapState::RunTestIdle, TapState::ShiftIr) => Some((4, 0b0011)),
        (TapState::ShiftDr, TapState::RunTestIdle) => Some((3, 0b011)),
        (TapState::ShiftIr, TapState::RunTestIdle) => Some((3, 0b011)),
        _ => None,
    }
}

impl TapState {
    /// The fixed TMS sequence from this state to `to`, if there is one.
    pub fn path_to(&self, to: TapState) -> (r: Option<(u8, u8)>)
        ensures
            r == tms_path(*self, to),
    {
        match (*self, to) {
            (_, TapState::TestLogicReset) => Some((5, 0b11111)),
            (TapState::TestLogicReset, TapState::RunTestIdle) => Some((1, 0b0)),
            (TapState::RunTestIdle, TapState::ShiftDr) => Some((3, 0b001)),
            (TapState::RunTestIdle, TapState::ShiftIr) => Some((4, 0b0011)),
            (TapState::ShiftDr, TapState::RunTestIdle) => Some((3, 0b011)),
            (TapState::ShiftIr, TapState::RunTestIdle) => Some((3, 0b011)),
            _ => None,
        }
    }
}

/// A TMS shift of `bits` bits of `pattern`, answered at once.
pub open spec fn tms_command(bits: u8, pattern: u8) -> Seq<u8> {
    seq![Clock_Data_to_TMS_on_neg_ve_LSB_first, (bits - 1) as u8, pattern, CmdImm]
}

/// The TMS command that takes the TAP from `from` to `to`.
pub open spec fn transition(from: TapState, to: TapState) -> Seq<u8>
    recommends
        tms_path(from, to) is Some,
{
    match tms_path(from, to) {
        Some((bits, pattern)) => tms_command(bits, pattern),
        None => seq![],
    }
}

/// From Shift-IR back to Run-Test/Idle, with `bit7` driven on TDI while the
/// TAP leaves Shift-IR.
pub open spec fn ir_exit(bit7: u8) -> Seq<u8> {
    tms_command(3, bit7 | 0b011u8)
}

/// The last bit of an instruction of `width` bits, placed in bit 7.
pub open spec fn ir_top_bit(width: u8, ir: u8) -> u8 {
    if bit_set(ir, (width - 1) as u8) {
        0x80
    } else {
        0
    }
}

/// Shifts an instruction of `width` bits: all but its last bit as TDI bits,
/// the last one folded into the exit to Run-Test/Idle.
pub open spec fn ir_shift(width: u8, ir: u8) -> Seq<u8> {
    seq![Clock_Data_Bits_Out_on_neg_ve_LSB_first, (width - 2) as u8, ir, CmdImm] + ir_exit(
        ir_top_bit(width, ir),
    )
}

/// A register operation: load the instruction `ir`, then shift the data
/// register with `data_shift`, and return to Run-Test/Idle.
pub open spec fn register_op(width: u8, ir: u8, data_shift: Seq<u8>) -> Seq<u8> {
    transition(TapState::RunTestIdle, TapState::ShiftIr) + ir_shift(width, ir) + transition(
        TapState::RunTestIdle,
        TapState::ShiftDr,
    ) + data_shift + transition(TapState::ShiftDr, TapState::RunTestIdle)
}

/// The fastest clock of the bridge, in kHz.
pub const MAX_CLOCK_KHZ: u32 = 30_000;

/// The bridge's buffer, in bytes.
pub const BUFFER_SIZE_BYTES: u16 = 4096;

/// The clock divisor for a requested speed: the fastest speed that does not
/// exceed it, or the fastest of all for a request of 0.
pub open spec fn divisor_for(speed_khz: int) -> int {
    if speed_khz == 0 {
        0
    } else {
        let max = MAX_CLOCK_KHZ as int;
        let q = max / speed_khz - if max % speed_khz == 0 {
            1int
        } else {
            0int
        };
        if q > 0xFFFF {
            0xFFFF
        } else {
            q
        }
    }
}

/// The speed that a clock divisor gives.
pub open spec fn speed_for(divisor: int) -> int {
    MAX_CLOCK_KHZ as int / (divisor + 1)
}

/// The clock divisor for a requested speed in kHz.
pub fn clock_divisor(speed_khz: u32) -> (r: u16)
    ensures
        r == divisor_for(speed_khz as int),
{
    if speed_khz == 0 {
        return 0;
    }
    let is_exact = MAX_CLOCK_KHZ % speed_khz == 0;
    let quotient = MAX_CLOCK_KHZ / speed_khz;
    if is_exact {
        assert(quotient >= 1) by (nonlinear_arith)
            requires
                speed_khz >= 1,
                MAX_CLOCK_KHZ % speed_khz == 0,
                quotient == MAX_CLOCK_KHZ / speed_khz,
        ;
    }
    let q = quotient - if is_exact { 1 } else { 0 };
    if q > 0xFFFF {
        0xFFFF
    } else {
        q as u16
    }
}

/// The speed in kHz that a clock divisor gives.
pub fn speed_khz_for(divisor: u16) -> (r: u16)
    ensures
        r == speed_for(divisor as int),
{
    let d = divisor as u32 + 1;
    assert(MAX_CLOCK_KHZ / d <= MAX_CLOCK_KHZ) by (nonlinear_arith)
        requires
            d >= 1,
    ;
    (MAX_CLOCK_KHZ / d) as u16
}

/// A JTAG driver over the MPSSE engine. It keeps the commands that are to be
/// written to the bridge, and how many answer bytes they will bring.
#[derive(Debug)]
pub struct FtdiMpsse {
    ir_width: u8,
    buffer_size_bytes: u16,
    divisor: u16,
    actual_speed_khz: u16,
    output: Vec<u8>,
    expected: usize,
}

impl FtdiMpsse {
    /// The commands not yet handed to the transport.
    pub closed spec fn pending(&self) -> Seq<u8> {
        self.output@
    }

    /// The answer bytes that the commands handed out so far will bring and
    /// that have not been taken back.
    pub closed spec fn expected_response(&self) -> nat {
        self.expected as nat
    }

    /// The width of the instruction register.
    pub closed spec fn ir_bits(&self) -> u8 {
        self.ir_width
    }

    /// The clock divisor in use.
    pub closed spec fn clock(&self) -> u16 {
        self.divisor
    }

    /// The speed in kHz that the clock divisor gives.
    pub closed spec fn speed(&self) -> u16 {
        self.actual_speed_khz
    }

    /// The instruction width fits the driver's commands, and the speed is the
    /// divisor's.
    pub closed spec fn wf(&self) -> bool {
        &&& 2 <= self.ir_width <= 8
        &&& self.actual_speed_khz == speed_for(self.divisor as int)
        &&& self.buffer_size_bytes == BUFFER_SIZE_BYTES
    }

    /// A driver for a TAP whose instruction register is `ir_width` bits wide,
    /// clocked at the fastest speed not above `speed_khz`. Its first command is
    /// a bad command, whose echo shows the command channel in step. A width
    /// outside `2..=8` is refused.
    pub fn new(ir_width: u8, speed_khz: u32) -> (r: Result<FtdiMpsse, JtagError>)
        ensures
            match r {
                Ok(ft) => {
                    &&& 2 <= ir_width <= 8
                    &&& ft.wf()
                    &&& ft.ir_bits() == ir_width
                    &&& ft.clock() == divisor_for(speed_khz as int)
                    &&& ft.speed() == speed_for(divisor_for(speed_khz as int))
                    &&& ft.pending() == seq![CmdBadCommand]
                    &&& ft.expected_response() == 0
                },
                Err(e) => !(2 <= ir_width <= 8) && e == JtagError::InvalidLength,
            },
    {
        if ir_width < 2 || ir_width > 8 {
            return Err(JtagError::InvalidLength);
        }
        let divisor = clock_divisor(speed_khz);
        let actual_speed_khz = speed_khz_for(divisor);
        let output: Vec<u8> = vec![CmdBadCommand];
        Ok(
            FtdiMpsse {
                ir_width,
                buffer_size_bytes: BUFFER_SIZE_BYTES,
                divisor,
                actual_speed_khz,
                output,
                expected: 0,
            },
        )
    }

    /// The width of the instruction register.
    pub fn ir_width(&self) -> (r: u8)
        ensures
            r == self.ir_bits(),
    {
        self.ir_width
    }

    /// The clock divisor to configure on the bridge.
    pub fn clock_divisor(&self) -> (r: u16)
        ensures
            r == self.clock(),
    {
        self.divisor
    }

    /// The speed in kHz that the clock divisor gives.
    pub fn actual_speed_khz(&self) -> (r: u16)
        ensures
            r == self.speed(),
    {
        self.actual_speed_khz
    }

    /// The size of the bridge's buffer in bytes.
    pub fn buffer_size_bytes(&self) -> (r: u16)
        requires
            self.wf(),
        ensures
            r == BUFFER_SIZE_BYTES,
    {
        self.buffer_size_bytes
    }

    /// How many answer bytes are still to be taken back.
    pub fn expected_response_len(&self) -> (r: usize)
        ensures
            r == self.expected_response(),
    {
        self.expected
    }

    /// Hands out the commands to write, in order, and forgets them.
    pub fn take_output(&mut self) -> (r: Vec<u8>)
        ensures
            r@ == old(self).pending(),
            final(self).pending() == Seq::<u8>::empty(),
            final(self).expected_response() == old(self).expected_response(),
            final(self).ir_bits() == old(self).ir_bits(),
            final(self).clock() == old(self).clock(),
            final(self).speed() == old(self).speed(),
            old(self).wf() ==> final(self).wf(),
    {
        let mut out: Vec<u8> = Vec::new();
        std::mem::swap(&mut out, &mut self.output);
        out
    }

    /// Whether the bridge answered the bad command as it should: with the
    /// bad-command marker and the command itself.
    pub fn check_sync(&self, reply: &[u8]) -> (r: Result<(), JtagError>)
        ensures
            match r {
                Ok(()) => reply@ == seq![BadCommandReply, CmdBadCommand],
                Err(e) => reply@ != seq![BadCommandReply, CmdBadCommand] && e
                    == JtagError::ProtocolDesync,
            },
    {
        if reply.len() == 2 && reply[0] == BadCommandReply && reply[1] == CmdBadCommand {
            assert(reply@ =~= seq![BadCommandReply, CmdBadCommand]);
            Ok(())
        } else {
            Err(JtagError::ProtocolDesync)
        }
    }

    /// Appends `bytes` to the commands to write.
    fn push_all(&mut self, bytes: &Vec<u8>)
        ensures
            final(self).pending() == old(self).pending() + bytes@,
            final(self).expected_response() == old(self).expected_response(),
            final(self).ir_bits() == old(self).ir_bits(),
            final(self).clock() == old(self).clock(),
            final(self).speed() == old(self).speed(),
            old(self).wf() ==> final(self).wf(),
    {
        let ghost start = self.output@;
        let mut i: usize = 0;
        while i < bytes.len()
            invariant
                i <= bytes@.len(),
                self.output@ == start + bytes@.take(i as int),
                self.expected == old(self).expected,
                self.ir_width == old(self).ir_width,
                self.divisor == old(self).divisor,
                self.actual_speed_khz == old(self).actual_speed_khz,
                self.buffer_size_bytes == old(self).buffer_size_bytes,
            decreases bytes@.len() - i,
        {
            self.output.push(bytes[i]);
            i = i + 1;
            assert(self.output@ =~= start + bytes@.take(i as int));
        }
        assert(bytes@.take(bytes@.len() as int) =~= bytes@);
    }

    /// Appends the TMS command from `from` to `to`.
    fn push_transition(&mut self, from: TapState, to: TapState)
        requires
            tms_path(from, to) is Some,
        ensures
            final(self).pending() == old(self).pending() + transition(from, to),
            final(self).expected_response() == old(self).expected_response(),
            final(self).ir_bits() == old(self).ir_bits(),
            final(self).clock() == old(self).clock(),
            final(self).speed() == old(self).speed(),
            old(self).wf() ==> final(self).wf(),
    {
        let (bits, pattern) = match from.path_to(to) {
            Some(p) => p,
            None => (1, 0),
        };
        let cmd: Vec<u8> = vec![Clock_Data_to_TMS_on_neg_ve_LSB_first, bits - 1, pattern, CmdImm];
        assert(cmd@ =~= transition(from, to));
        self.push_all(&cmd);
    }

    /// Resets the TAP and moves it on to Run-Test/Idle.
    pub fn reset_and_to_rti(&mut self)
        ensures
            final(self).pending() == old(self).pending() + transition(
                TapState::RunTestIdle,
                TapState::TestLogicReset,
            ) + transition(TapState::TestLogicReset, TapState::RunTestIdle),
            final(self).expected_response() == old(self).expected_response(),
            final(self).ir_bits() == old(self).ir_bits(),
            old(self).wf() ==> final(self).wf(),
    {
        self.push_transition(TapState::RunTestIdle, TapState::TestLogicReset);
        self.push_transition(TapState::TestLogicReset, TapState::RunTestIdle);
        assert(final(self).pending() =~= old(self).pending() + transition(
            TapState::RunTestIdle,
            TapState::TestLogicReset,
        ) + transition(TapState::TestLogicReset, TapState::RunTestIdle));
    }

    /// Moves the TAP from Run-Test/Idle to Shift-DR.
    pub fn rti_to_shift_dr(&mut self)
        ensures
            final(self).pending() == old(self).pending() + transition(
                TapState::RunTestIdle,
                TapState::ShiftDr,
            ),
            final(self).expected_response() == old(self).expected_response(),
            final(self).ir_bits() == old(self).ir_bits(),
            old(self).wf() ==> final(self).wf(),
    {
        self.push_transition(TapState::RunTestIdle, TapState::ShiftDr);
    }

    /// Moves the TAP from Run-Test/Idle to Shift-IR.
    pub fn rti_to_shift_ir(&mut self)
        ensures
            final(self).pending() == old(self).pending() + transition(
                TapState::RunTestIdle,
                TapState::ShiftIr,
            ),
            final(self).expected_response() == old(self).expected_response(),
            final(self).ir_bits() == old(self).ir_bits(),
            old(self).wf() ==> final(self).wf(),
    {
        self.push_transition(TapState::RunTestIdle, TapState::ShiftIr);
    }

    /// Moves the TAP from Shift-DR back to Run-Test/Idle.
    pub fn dr_to_rti(&mut self)
        ensures
            final(self).pending() == old(self).pending() + transition(
                TapState::ShiftDr,
                TapState::RunTestIdle,
            ),
            final(self).expected_response() == old(self).expected_response(),
            final(self).ir_bits() == old(self).ir_bits(),
            old(self).wf() ==> final(self).wf(),
    {
        self.push_transition(TapState::ShiftDr, TapState::RunTestIdle);
    }

    /// Moves the TAP from Shift-IR back to Run-Test/Idle, driving bit 7 of
    /// `bit7` on TDI on the first clock.
    pub fn ir_to_rti(&mut self, bit7: u8)
        ensures
            final(self).pending() == old(self).pending() + ir_exit(bit7),
            final(self).expected_response() == old(self).expected_response(),
            final(self).ir_bits() == old(self).ir_bits(),
            old(self).wf() ==> final(self).wf(),
    {
        let cmd: Vec<u8> = vec![Clock_Data_to_TMS_on_neg_ve_LSB_first, 2, bit7 | 0b011u8, CmdImm];
        assert(cmd@ =~= ir_exit(bit7));
        self.push_all(&cmd);
    }

    /// Shifts the instruction `ir` from Shift-IR and returns to Run-Test/Idle;
    /// its last bit goes out with the first clock of the exit.
    pub fn shift_ir(&mut self, ir: u8)
        requires
            old(self).wf(),
        ensures
            final(self).pending() == old(self).pending() + ir_shift(old(self).ir_bits(), ir),
            final(self).expected_response() == old(self).expected_response(),
            final(self).ir_bits() == old(self).ir_bits(),
            final(self).wf(),
    {
        let w = self.ir_width;
        let cmd: Vec<u8> = vec![Clock_Data_Bits_Out_on_neg_ve_LSB_first, w - 2, ir, CmdImm];
        self.push_all(&cmd);
        let top: u8 = if (ir >> (w - 1)) & 1u8 == 1u8 {
            0x80
        } else {
            0
        };
        self.ir_to_rti(top);
        assert(final(self).pending() =~= old(self).pending() + ir_shift(old(self).ir_bits(), ir));
    }

    /// Loads `ir`, moves to Shift-DR, appends `data_cmd`, and returns to
    /// Run-Test/Idle.
    fn push_register_op(&mut self, ir: u8, data_cmd: &Vec<u8>)
        requires
            old(self).wf(),
        ensures
            final(self).pending() == old(self).pending() + register_op(
                old(self).ir_bits(),
                ir,
                data_cmd@,
            ),
            final(self).expected_response() == old(self).expected_response(),
            final(self).ir_bits() == old(self).ir_bits(),
            final(self).wf(),
    {
        self.rti_to_shift_ir();
        self.shift_ir(ir);
        self.rti_to_shift_dr();
        self.push_all(data_cmd);
        self.dr_to_rti();
        assert(final(self).pending() =~= old(self).pending() + register_op(
            old(self).ir_bits(),
            ir,
            data_cmd@,
        ));
    }

    /// Writes `data` to the register that `ir` selects and reads back what it
    /// held: `data.len()` answer bytes. A length outside `1..=65536` is
    /// refused before anything is queued.
    pub fn read_write_register(&mut self, ir: u8, data: &[u8]) -> (r: Result<(), JtagError>)
        requires
            old(self).wf(),
            old(self).expected_response() + data@.len() <= usize::MAX,
        ensures
            final(self).wf(),
            match r {
                Ok(()) => {
                    &&& valid_payload_len(data@.len() as int)
                    &&& final(self).pending() == old(self).pending() + register_op(
                        old(self).ir_bits(),
                        ir,
                        byte_shift(Clock_Data_Bytes_In_on_pos_ve_and_Out_on_neg_ve_LSB_first, data@),
                    )
                    &&& final(self).expected_response() == old(self).expected_response()
                        + data@.len()
                    &&& final(self).ir_bits() == old(self).ir_bits()
                },
                Err(e) => !valid_payload_len(data@.len() as int) && e == JtagError::InvalidLength
                    && *final(self) == *old(self),
            },
    {
        let cmd = match cmd_read_write_imm(data) {
            Ok(c) => c,
            Err(e) => return Err(e),
        };
        self.push_register_op(ir, &cmd);
        self.expected = self.expected + data.len();
        Ok(())
    }

    /// Writes `data` to the register that `ir` selects; nothing is read back.
    /// A length outside `1..=65536` is refused before anything is queued.
    pub fn write_register(&mut self, ir: u8, data: &[u8]) -> (r: Result<(), JtagError>)
        requires
            old(self).wf(),
        ensures
            final(self).wf(),
            match r {
                Ok(()) => {
                    &&& valid_payload_len(data@.len() as int)
                    &&& final(self).pending() == old(self).pending() + register_op(
                        old(self).ir_bits(),
                        ir,
                        byte_shift(Clock_Data_Bytes_Out_on_neg_ve_LSB_first, data@),
                    )
                    &&& final(self).expected_response() == old(self).expected_response()
                    &&& final(self).ir_bits() == old(self).ir_bits()
                },
                Err(e) => !valid_payload_len(data@.len() as int) && e == JtagError::InvalidLength
                    && *final(self) == *old(self),
            },
    {
        let cmd = match cmd_write_imm(data) {
            Ok(c) => c,
            Err(e) => return Err(e),
        };
        self.push_register_op(ir, &cmd);
        Ok(())
    }

    /// Reads `len` bytes from the register that `ir` selects: `len` answer
    /// bytes. A length outside `1..=65536` is refused before anything is queued.
    pub fn read_register(&mut self, ir: u8, len: usize) -> (r: Result<(), JtagError>)
        requires
            old(self).wf(),
            old(self).expected_response() + len <= usize::MAX,
        ensures
            final(self).wf(),
            match r {
                Ok(()) => {
                    &&& valid_payload_len(len as int)
                    &&& final(self).pending() == old(self).pending() + register_op(
                        old(self).ir_bits(),
                        ir,
                        byte_read(len as int),
                    )
                    &&& final(self).expected_response() == old(self).expected_response() + len
                    &&& final(self).ir_bits() == old(self).ir_bits()
                },
                Err(e) => !valid_payload_len(len as int) && e == JtagError::InvalidLength
                    && *final(self) == *old(self),
            },
    {
        let cmd = match cmd_read_imm(len) {
            Ok(c) => c,
            Err(e) => return Err(e),
        };
        self.push_register_op(ir, &cmd);
        self.expected = self.expected + len;
        Ok(())
    }

    /// Takes back the answer to the commands handed out: exactly as many bytes
    /// as they bring, which are returned in order. Any other count is a desync,
    /// and nothing changes.
    pub fn take_response(&mut self, response: &[u8]) -> (r: Result<Vec<u8>, JtagError>)
        ensures
            final(self).pending() == old(self).pending(),
            final(self).ir_bits() == old(self).ir_bits(),
            old(self).wf() ==> final(self).wf(),
            match r {
                Ok(v) => response@.len() == old(self).expected_response() && v@ == response@
                    && final(self).expected_response() == 0,
                Err(e) => response@.len() != old(self).expected_response() && e
                    == JtagError::ProtocolDesync && *final(self) == *old(self),
            },
    {
        if response.len() != self.expected {
            return Err(JtagError::ProtocolDesync);
        }
        let mut v: Vec<u8> = Vec::new();
        let mut i: usize = 0;
        while i < response.len()
            invariant
                i <= response@.len(),
                v@ == response@.take(i as int),
            decreases response@.len() - i,
        {
            v.push(response[i]);
            i = i + 1;
            assert(v@ =~= response@.take(i as int));
        }
        assert(response@.take(response@.len() as int) =~= response@);
        self.expected = 0;
        Ok(v)
    }

    /// Checks that the bytes drained from the transport are none: any byte
    /// left unread there is a desync.
    pub fn assert_ftdi_buffer_empty(&self, drained: &[u8]) -> (r: Result<(), JtagError>)
        ensures
            match r {
                Ok(()) => drained@.len() == 0,
                Err(e) => drained@.len() > 0 && e == JtagError::ProtocolDesync,
            },
    {
        if drained.len() == 0 {
            Ok(())
        } else {
            Err(JtagError::ProtocolDesync)
        }
    }
}

} // verus!
