//! The MPSSE command encoder: flag bytes and byte-shift commands.
#![allow(non_upper_case_globals)]

use crate::error::JtagError;
use vstd::prelude::*;

verus! {

/// One bit of a flag byte.
pub open spec fn flag(b: bool) -> u8 {
    if b {
        1
    } else {
        0
    }
}

/// The shift-command flag byte: bit `i` holds the `i`-th flag.
pub open spec fn shift_flags(
    neg_ve_clk_write: bool,
    bit_mode: bool,
    neg_ve_clk_read: bool,
    lsb_first: bool,
    write_tdi: bool,
    read_tdo: bool,
    write_tms: bool,
) -> u8 {
    flag(neg_ve_clk_write) | flag(bit_mode) << 1u8 | flag(neg_ve_clk_read) << 2u8 | flag(lsb_first)
        << 3u8 | flag(write_tdi) << 4u8 | flag(read_tdo) << 5u8 | flag(write_tms) << 6u8
}

/// Whether bit `i` of `b` is set.
pub open spec fn bit_set(b: u8, i: u8) -> bool {
    (b >> i) & 1u8 == 1u8
}

/// Packs the seven flags of a data-shifting command into its command byte.
pub fn cmd_shift(
    neg_ve_clk_write: bool,
    bit_mode: bool,
    neg_ve_clk_read: bool,
    lsb_first: bool,
    write_tdi: bool,
    read_tdo: bool,
    write_tms: bool,
) -> (r: u8)
    ensures
        r == shift_flags(
            neg_ve_clk_write,
            bit_mode,
            neg_ve_clk_read,
            lsb_first,
            write_tdi,
            read_tdo,
            write_tms,
        ),
{
    let a: u8 = if neg_ve_clk_write { 1 } else { 0 };
    let b: u8 = if bit_mode { 1 } else { 0 };
    let c: u8 = if neg_ve_clk_read { 1 } else { 0 };
    let d: u8 = if lsb_first { 1 } else { 0 };
    let e: u8 = if write_tdi { 1 } else { 0 };
    let f: u8 = if read_tdo { 1 } else { 0 };
    let g: u8 = if write_tms { 1 } else { 0 };
    a | b << 1u8 | c << 2u8 | d << 3u8 | e << 4u8 | f << 5u8 | g << 6u8
}

/// The seven flags of one data-shifting command, in the order of their bits.
#[derive(Debug, Clone, Copy, PartialEq, Eq, Structural)]
pub struct ShiftCommand {
    /// Data is written on the falling clock edge.
    pub neg_ve_clk_write: bool,
    /// Lengths count bits rather than bytes.
    pub bit_mode: bool,
    /// Data is read on the falling clock edge.
    pub neg_ve_clk_read: bool,
    /// Data is shifted least significant bit first.
    pub lsb_first: bool,
    /// TDI is driven.
    pub write_tdi: bool,
    /// TDO is captured.
    pub read_tdo: bool,
    /// TMS is driven.
    pub write_tms: bool,
}

impl ShiftCommand {
    /// The command byte of these flags.
    pub open spec fn spec_encode(self) -> u8 {
        shift_flags(
            self.neg_ve_clk_write,
            self.bit_mode,
            self.neg_ve_clk_read,
            self.lsb_first,
            self.write_tdi,
            self.read_tdo,
            self.write_tms,
        )
    }

    /// The flags that the low seven bits of a command byte stand for.
    pub open spec fn spec_decode(b: u8) -> ShiftCommand {
        ShiftCommand {
            neg_ve_clk_write: bit_set(b, 0),
            bit_mode: bit_set(b, 1),
            neg_ve_clk_read: bit_set(b, 2),
            lsb_first: bit_set(b, 3),
            write_tdi: bit_set(b, 4),
            read_tdo: bit_set(b, 5),
            write_tms: bit_set(b, 6),
        }
    }

    /// Packs the flags into the command byte.
    pub fn encode(&self) -> (r: u8)
        ensures
            r == self.spec_encode(),
    {
        cmd_shift(
            self.neg_ve_clk_write,
            self.bit_mode,
            self.neg_ve_clk_read,
            self.lsb_first,
            self.write_tdi,
            self.read_tdo,
            self.write_tms,
        )
    }

    /// Reads the flags back out of a command byte; bit 7 is not a flag.
    pub fn decode(b: u8) -> (r: ShiftCommand)
        ensures
            r == ShiftCommand::spec_decode(b),
    {
        ShiftCommand {
            neg_ve_clk_write: (b >> 0u8) & 1u8 == 1u8,
            bit_mode: (b >> 1u8) & 1u8 == 1u8,
            neg_ve_clk_read: (b >> 2u8) & 1u8 == 1u8,
            lsb_first: (b >> 3u8) & 1u8 == 1u8,
            write_tdi: (b >> 4u8) & 1u8 == 1u8,
            read_tdo: (b >> 5u8) & 1u8 == 1u8,
            write_tms: (b >> 6u8) & 1u8 == 1u8,
        }
    }
}

proof fn lemma_flags_bits(a: bool, b: bool, c: bool, d: bool, e: bool, f: bool, g: bool)
    ensures
        bit_set(shift_flags(a, b, c, d, e, f, g), 0) == a,
        bit_set(shift_flags(a, b, c, d, e, f, g), 1) == b,
        bit_set(shift_flags(a, b, c, d, e, f, g), 2) == c,
        bit_set(shift_flags(a, b, c, d, e, f, g), 3) == d,
        bit_set(shift_flags(a, b, c, d, e, f, g), 4) == e,
        bit_set(shift_flags(a, b, c, d, e, f, g), 5) == f,
        bit_set(shift_flags(a, b, c, d, e, f, g), 6) == g,
        !bit_set(shift_flags(a, b, c, d, e, f, g), 7),
{
    let x = flag(a);
    let y = flag(b);
    let z = flag(c);
    let u = flag(d);
    let v = flag(e);
    let w = flag(f);
    let t = flag(g);
    assert({
        let r = x | y << 1u8 | z << 2u8 | u << 3u8 | v << 4u8 | w << 5u8 | t << 6u8;
        &&& (r >> 0u8) & 1u8 == x
        &&& (r >> 1u8) & 1u8 == y
        &&& (r >> 2u8) & 1u8 == z
        &&& (r >> 3u8) & 1u8 == u
        &&& (r >> 4u8) & 1u8 == v
        &&& (r >> 5u8) & 1u8 == w
        &&& (r >> 6u8) & 1u8 == t
        &&& (r >> 7u8) & 1u8 == 0u8
    }) by (bit_vector)
        requires
            x <= 1u8,
            y <= 1u8,
            z <= 1u8,
            u <= 1u8,
            v <= 1u8,
            w <= 1u8,
            t <= 1u8,
    ;
}

/// Encoding the flags of a shift command into its byte and decoding that byte
/// gives back the same seven flags.
pub proof fn lemma_flag_round_trip(c: ShiftCommand)
    ensures
        ShiftCommand::spec_decode(c.spec_encode()) == c,
        !bit_set(c.spec_encode(), 7),
{
    lemma_flags_bits(
        c.neg_ve_clk_write,
        c.bit_mode,
        c.neg_ve_clk_read,
        c.lsb_first,
        c.write_tdi,
        c.read_tdo,
        c.write_tms,
    );
}

/// Decoding a command byte and encoding the flags again gives the byte with
/// bit 7 cleared.
pub proof fn lemma_byte_round_trip(b: u8)
    ensures
        ShiftCommand::spec_decode(b).spec_encode() == b & 0x7fu8,
{
    assert(shift_flags(
        (b >> 0u8) & 1u8 == 1u8,
        (b >> 1u8) & 1u8 == 1u8,
        (b >> 2u8) & 1u8 == 1u8,
        (b >> 3u8) & 1u8 == 1u8,
        (b >> 4u8) & 1u8 == 1u8,
        (b >> 5u8) & 1u8 == 1u8,
        (b >> 6u8) & 1u8 == 1u8,
    ) == b & 0x7fu8) by (bit_vector);
}

/// Clock data bytes in on the rising edge and out on the falling edge, LSB first.
pub const Clock_Data_Bytes_In_on_pos_ve_and_Out_on_neg_ve_LSB_first: u8 = 0x39;

/// Clock data bytes in on the rising edge, LSB first, with no write.
pub const Clock_Data_Bytes_In_on_pos_ve_LSB_first: u8 = 0x28;

/// Clock data bytes out on the falling edge, LSB first, with no read.
pub const Clock_Data_Bytes_Out_on_neg_ve_LSB_first: u8 = 0x19;

/// Clock data bits out on the falling edge, LSB first, with no read.
pub const Clock_Data_Bits_Out_on_neg_ve_LSB_first: u8 = 0x1b;

/// Clock data bits in on the rising edge and out on the falling edge, LSB first.
pub const Clock_Data_Bits_In_on_pos_ve_and_Out_on_neg_ve_LSB_first: u8 = 0x3b;

/// Clock data to TMS on the falling edge, LSB first, with no read.
pub const Clock_Data_to_TMS_on_neg_ve_LSB_first: u8 = 0x4b;

/// Clock data to TMS on the falling edge and read TDO on the rising edge, LSB first.
pub const Clock_Data_to_TMS_In_on_pos_ve_Out_on_neg_ve_LSB_first: u8 = 0x6b;

/// Send immediate: the bridge answers at once instead of waiting to fill its buffer.
pub const CmdImm: u8 = 0x87;

/// A command byte that the bridge does not know.
pub const CmdBadCommand: u8 = 0xAB;

/// The byte that opens the bridge's answer to an unknown command.
pub const BadCommandReply: u8 = 0xFA;

/// The command bytes are the flag packings of their names, and have the
/// documented values.
pub proof fn lemma_command_constants()
    ensures
        Clock_Data_Bytes_In_on_pos_ve_and_Out_on_neg_ve_LSB_first == shift_flags(
            true,
            false,
            false,
            true,
            true,
            true,
            false,
        ),
        Clock_Data_Bytes_In_on_pos_ve_LSB_first == shift_flags(
            false,
            false,
            false,
            true,
            false,
            true,
            false,
        ),
        Clock_Data_Bytes_Out_on_neg_ve_LSB_first == shift_flags(
            true,
            false,
            false,
            true,
            true,
            false,
            false,
        ),
        Clock_Data_Bits_Out_on_neg_ve_LSB_first == shift_flags(
            true,
            true,
            false,
            true,
            true,
            false,
            false,
        ),
        Clock_Data_Bits_In_on_pos_ve_and_Out_on_neg_ve_LSB_first == shift_flags(
            true,
            true,
            false,
            true,
            true,
            true,
            false,
        ),
        Clock_Data_to_TMS_on_neg_ve_LSB_first == shift_flags(
            true,
            true,
            false,
            true,
            false,
            false,
            true,
        ),
        Clock_Data_to_TMS_In_on_pos_ve_Out_on_neg_ve_LSB_first == shift_flags(
            true,
            true,
            false,
            true,
            false,
            true,
            true,
        ),
        Clock_Data_Bytes_In_on_pos_ve_and_Out_on_neg_ve_LSB_first == 0x39,
        Clock_Data_Bytes_In_on_pos_ve_LSB_first == 0x28,
        Clock_Data_Bytes_Out_on_neg_ve_LSB_first == 0x19,
        Clock_Data_to_TMS_on_neg_ve_LSB_first == 0x4b,
        Clock_Data_to_TMS_In_on_pos_ve_Out_on_neg_ve_LSB_first == 0x6b,
        CmdImm == 0x87,
{
    assert(0x39u8 == 1u8 | 0u8 << 1u8 | 0u8 << 2u8 | 1u8 << 3u8 | 1u8 << 4u8 | 1u8 << 5u8 | 0u8
        << 6u8) by (bit_vector);
    assert(0x28u8 == 0u8 | 0u8 << 1u8 | 0u8 << 2u8 | 1u8 << 3u8 | 0u8 << 4u8 | 1u8 << 5u8 | 0u8
        << 6u8) by (bit_vector);
    assert(0x19u8 == 1u8 | 0u8 << 1u8 | 0u8 << 2u8 | 1u8 << 3u8 | 1u8 << 4u8 | 0u8 << 5u8 | 0u8
        << 6u8) by (bit_vector);
    assert(0x1bu8 == 1u8 | 1u8 << 1u8 | 0u8 << 2u8 | 1u8 << 3u8 | 1u8 << 4u8 | 0u8 << 5u8 | 0u8
        << 6u8) by (bit_vector);
    assert(0x3bu8 == 1u8 | 1u8 << 1u8 | 0u8 << 2u8 | 1u8 << 3u8 | 1u8 << 4u8 | 1u8 << 5u8 | 0u8
        << 6u8) by (bit_vector);
    assert(0x4bu8 == 1u8 | 1u8 << 1u8 | 0u8 << 2u8 | 1u8 << 3u8 | 0u8 << 4u8 | 0u8 << 5u8 | 1u8
        << 6u8) by (bit_vector);
    assert(0x6bu8 == 1u8 | 1u8 << 1u8 | 0u8 << 2u8 | 1u8 << 3u8 | 0u8 << 4u8 | 1u8 << 5u8 | 1u8
        << 6u8) by (bit_vector);
}

/// Whether a byte-shift payload of `n` bytes fits the 16-bit length field.
pub open spec fn valid_payload_len(n: int) -> bool {
    1 <= n <= 65536
}

/// The length field of a byte shift of `n` bytes: `n - 1`, little-endian.
pub open spec fn length_header(n: int) -> Seq<u8> {
    seq![((n - 1) % 256) as u8, ((n - 1) / 256) as u8]
}

/// A byte shift: its opcode, its length field, the payload, then send-immediate.
pub open spec fn byte_shift(opcode: u8, payload: Seq<u8>) -> Seq<u8> {
    seq![opcode] + length_header(payload.len() as int) + payload + seq![CmdImm]
}

/// A byte shift that reads `n` bytes and writes none.
pub open spec fn byte_read(n: int) -> Seq<u8> {
    seq![Clock_Data_Bytes_In_on_pos_ve_LSB_first] + length_header(n) + seq![CmdImm]
}

/// The length field of every valid byte shift reads back as the payload length
/// less one.
pub proof fn lemma_length_header(n: int)
    requires
        valid_payload_len(n),
    ensures
        length_header(n).len() == 2,
        length_header(n)[0] + 256 * length_header(n)[1] == n - 1,
        length_header(n)[1] <= 0xff,
{
}

/// The length field of an `n`-byte shift, `n` in `1..=65536`.
fn length_bytes(n: usize) -> (r: (u8, u8))
    requires
        valid_payload_len(n as int),
    ensures
        seq![r.0, r.1] == length_header(n as int),
{
    let len = n - 1;
    ((len % 256) as u8, (len / 256) as u8)
}

/// Appends a byte shift with the given opcode and payload to `out`.
fn push_byte_shift(out: &mut Vec<u8>, opcode: u8, data: &[u8])
    requires
        valid_payload_len(data@.len() as int),
        old(out)@.len() + data@.len() + 4 <= usize::MAX,
    ensures
        final(out)@ == old(out)@ + byte_shift(opcode, data@),
{
    let (lo, hi) = length_bytes(data.len());
    out.push(opcode);
    out.push(lo);
    out.push(hi);
    let ghost start = out@;
    let mut i: usize = 0;
    while i < data.len()
        invariant
            i <= data@.len(),
            out@ == start + data@.take(i as int),
            start.len() + data@.len() + 1 <= usize::MAX,
        decreases data@.len() - i,
    {
        out.push(data[i]);
        i = i + 1;
        assert(data@.take(i as int) == data@.take(i - 1).push(data@[i - 1]));
    }
    out.push(CmdImm);
    assert(data@.take(data@.len() as int) == data@);
    assert(out@ == old(out)@ + byte_shift(opcode, data@));
}

/// A full-duplex byte shift of `data`, answered at once.
pub fn cmd_read_write_imm(data: &[u8]) -> (r: Result<Vec<u8>, JtagError>)
    ensures
        match r {
            Ok(v) => valid_payload_len(data@.len() as int) && v@ == byte_shift(
                Clock_Data_Bytes_In_on_pos_ve_and_Out_on_neg_ve_LSB_first,
                data@,
            ),
            Err(e) => !valid_payload_len(data@.len() as int) && e == JtagError::InvalidLength,
        },
{
    if data.len() == 0 || data.len() > 65536 {
        return Err(JtagError::InvalidLength);
    }
    let mut v: Vec<u8> = Vec::new();
    push_byte_shift(&mut v, Clock_Data_Bytes_In_on_pos_ve_and_Out_on_neg_ve_LSB_first, data);
    Ok(v)
}

/// A write-only byte shift of `data`, answered at once.
pub fn cmd_write_imm(data: &[u8]) -> (r: Result<Vec<u8>, JtagError>)
    ensures
        match r {
            Ok(v) => valid_payload_len(data@.len() as int) && v@ == byte_shift(
                Clock_Data_Bytes_Out_on_neg_ve_LSB_first,
                data@,
            ),
            Err(e) => !valid_payload_len(data@.len() as int) && e == JtagError::InvalidLength,
        },
{
    if data.len() == 0 || data.len() > 65536 {
        return Err(JtagError::InvalidLength);
    }
    let mut v: Vec<u8> = Vec::new();
    push_byte_shift(&mut v, Clock_Data_Bytes_Out_on_neg_ve_LSB_first, data);
    Ok(v)
}

/// A read-only byte shift of `len` bytes, answered at once.
pub fn cmd_read_imm(len: usize) -> (r: Result<Vec<u8>, JtagError>)
    ensures
        match r {
            Ok(v) => valid_payload_len(len as int) && v@ == byte_read(len as int),
            Err(e) => !valid_payload_len(len as int) && e == JtagError::InvalidLength,
        },
{
    if len == 0 || len > 65536 {
        return Err(JtagError::InvalidLength);
    }
    let (lo, hi) = length_bytes(len);
    let v: Vec<u8> = vec![Clock_Data_Bytes_In_on_pos_ve_LSB_first, lo, hi, CmdImm];
    assert(v@ == byte_read(len as int));
    Ok(v)
}

} // verus!
