//! The command compacter: queues bit-level JTAG steps, merges neighbours into
//! as few MPSSE commands as the command format allows, and reassembles the
//! bits that the capturing steps read back.

use crate::error::JtagError;
use crate::mpsse::{
    bit_set, Clock_Data_Bits_In_on_pos_ve_and_Out_on_neg_ve_LSB_first,
    Clock_Data_Bits_Out_on_neg_ve_LSB_first, Clock_Data_to_TMS_In_on_pos_ve_Out_on_neg_ve_LSB_first,
    Clock_Data_to_TMS_on_neg_ve_LSB_first, CmdImm,
};
use vstd::prelude::*;

verus! {

/// One bit-level step of a JTAG sequence.
#[derive(Debug, Clone, Copy, PartialEq, Eq, Structural)]
pub enum Command {
    /// Drives the low `bit_count` bits of `tms_bits` on TMS, LSB first, with TDI
    /// held at `tdi`; `capture` reads TDO on each clock.
    TmsBits { bit_count: u8, tms_bits: u8, tdi: bool, capture: bool },
    /// Drives the low `bit_count` bits of `tdi_bits` on TDI, LSB first, with TMS
    /// unchanged; `capture` reads TDO on each clock.
    TdiBits { bit_count: u8, tdi_bits: u8, capture: bool },
}

/// What one clock of a step does on the wire.
#[derive(Debug, Clone, Copy, PartialEq, Eq, Structural)]
pub struct Clock {
    /// The clock drives TMS; otherwise TMS keeps its level.
    pub drives_tms: bool,
    /// The TMS level, where it is driven.
    pub tms: bool,
    /// The TDI level.
    pub tdi: bool,
    /// TDO is read on this clock.
    pub capture: bool,
}

/// The largest TMS step: bit 7 of its data byte carries the TDI level.
pub const MAX_TMS_BITS: u8 = 7;

/// The largest TDI bit step.
pub const MAX_TDI_BITS: u8 = 8;

impl Command {
    /// How many clocks the step takes.
    pub open spec fn bits(self) -> u8 {
        match self {
            Command::TmsBits { bit_count, .. } => bit_count,
            Command::TdiBits { bit_count, .. } => bit_count,
        }
    }

    /// Whether the step reads TDO.
    pub open spec fn captures(self) -> bool {
        match self {
            Command::TmsBits { capture, .. } => capture,
            Command::TdiBits { capture, .. } => capture,
        }
    }

    /// The bit count fits the command: `1..=7` for TMS, `1..=8` for TDI.
    pub open spec fn valid(self) -> bool {
        match self {
            Command::TmsBits { bit_count, .. } => 1 <= bit_count <= MAX_TMS_BITS,
            Command::TdiBits { bit_count, .. } => 1 <= bit_count <= MAX_TDI_BITS,
        }
    }

    /// The clocks of this step, in order.
    pub open spec fn clocks(self) -> Seq<Clock> {
        match self {
            Command::TmsBits { bit_count, tms_bits, tdi, capture } => Seq::new(
                bit_count as nat,
                |i: int| Clock { drives_tms: true, tms: bit_set(tms_bits, i as u8), tdi, capture },
            ),
            Command::TdiBits { bit_count, tdi_bits, capture } => Seq::new(
                bit_count as nat,
                |i: int|
                    Clock { drives_tms: false, tms: false, tdi: bit_set(tdi_bits, i as u8), capture },
            ),
        }
    }

    /// Whether this step and `next` fit one command: the same kind, TDI level
    /// and capture, and together no more bits than the command carries.
    pub open spec fn can_merge(self, next: Command) -> bool {
        match (self, next) {
            (
                Command::TmsBits { bit_count: n1, tdi: t1, capture: c1, .. },
                Command::TmsBits { bit_count: n2, tdi: t2, capture: c2, .. },
            ) => t1 == t2 && c1 == c2 && n1 + n2 <= MAX_TMS_BITS,
            (
                Command::TdiBits { bit_count: n1, capture: c1, .. },
                Command::TdiBits { bit_count: n2, capture: c2, .. },
            ) => c1 == c2 && n1 + n2 <= MAX_TDI_BITS,
            _ => false,
        }
    }

    /// The single step that does this step and then `next`.
    pub open spec fn merge(self, next: Command) -> Command {
        match (self, next) {
            (
                Command::TmsBits { bit_count: n1, tms_bits: b1, tdi, capture },
                Command::TmsBits { bit_count: n2, tms_bits: b2, .. },
            ) => Command::TmsBits {
                bit_count: (n1 + n2) as u8,
                tms_bits: join_bits(b1, n1, b2, n2),
                tdi,
                capture,
            },
            (
                Command::TdiBits { bit_count: n1, tdi_bits: b1, capture },
                Command::TdiBits { bit_count: n2, tdi_bits: b2, .. },
            ) => Command::TdiBits {
                bit_count: (n1 + n2) as u8,
                tdi_bits: join_bits(b1, n1, b2, n2),
                capture,
            },
            _ => self,
        }
    }
}

/// The low `n` bits of `x`, for `n` in `1..=8`.
pub open spec fn low_bits(x: u8, n: u8) -> u8 {
    x & (0xffu8 >> ((8 - n) as u8))
}

/// The low `n1` bits of `b1` followed by the low `n2` bits of `b2`.
pub open spec fn join_bits(b1: u8, n1: u8, b2: u8, n2: u8) -> u8 {
    low_bits(b1, n1) | low_bits(b2, n2) << n1
}

/// All steps of `s` fit their commands.
pub open spec fn all_valid(s: Seq<Command>) -> bool {
    forall|i: int| 0 <= i < s.len() ==> #[trigger] s[i].valid()
}

/// The clocks of a sequence of steps, in order.
pub open spec fn clocks_of(s: Seq<Command>) -> Seq<Clock>
    decreases s.len(),
{
    if s.len() == 0 {
        seq![]
    } else {
        clocks_of(s.drop_last()) + s.last().clocks()
    }
}

/// Greedy compaction: each step joins the command before it where the two fit
/// one command, and starts a new command otherwise.
pub open spec fn compact(s: Seq<Command>) -> Seq<Command>
    decreases s.len(),
{
    if s.len() == 0 {
        seq![]
    } else {
        let p = compact(s.drop_last());
        let c = s.last();
        if p.len() > 0 && p.last().can_merge(c) {
            p.drop_last().push(p.last().merge(c))
        } else {
            p.push(c)
        }
    }
}

proof fn lemma_low_bits(x: u8, n: u8, i: u8)
    by (bit_vector)
    requires
        1 <= n <= 8,
        i < n,
    ensures
        bit_set(low_bits(x, n), i) == bit_set(x, i),
{
}

proof fn lemma_join_bit(b1: u8, n1: u8, b2: u8, n2: u8, i: u8)
    by (bit_vector)
    requires
        1 <= n1,
        1 <= n2,
        n1 + n2 <= 8,
        i < n1 + n2,
    ensures
        bit_set(join_bits(b1, n1, b2, n2), i) == if i < n1 {
            bit_set(b1, i)
        } else {
            bit_set(b2, (i - n1) as u8)
        },
{
}

/// Merging two valid steps that fit one command gives a valid step with the
/// clocks of the first followed by those of the second.
pub proof fn lemma_merge_clocks(a: Command, b: Command)
    requires
        a.valid(),
        b.valid(),
        a.can_merge(b),
    ensures
        a.merge(b).valid(),
        a.merge(b).captures() == a.captures(),
        a.merge(b).bits() == a.bits() + b.bits(),
        a.merge(b).clocks() == a.clocks() + b.clocks(),
{
    let m = a.merge(b);
    let n1 = a.bits();
    let n2 = b.bits();
    assert forall|i: int| 0 <= i < m.clocks().len() implies m.clocks()[i] == (a.clocks()
        + b.clocks())[i] by {
        match (a, b) {
            (
                Command::TmsBits { tms_bits: b1, .. },
                Command::TmsBits { tms_bits: b2, .. },
            ) => {
                lemma_join_bit(b1, n1, b2, n2, i as u8);
            },
            (
                Command::TdiBits { tdi_bits: b1, .. },
                Command::TdiBits { tdi_bits: b2, .. },
            ) => {
                lemma_join_bit(b1, n1, b2, n2, i as u8);
            },
            _ => {},
        }
    }
    assert(m.clocks() =~= a.clocks() + b.clocks());
}

proof fn lemma_clocks_push(s: Seq<Command>, c: Command)
    ensures
        clocks_of(s.push(c)) == clocks_of(s) + c.clocks(),
{
    assert(s.push(c).drop_last() =~= s);
}

/// Compaction keeps every clock of the queued steps, in order, and yields
/// valid steps only.
pub proof fn lemma_compact_clocks(s: Seq<Command>)
    requires
        all_valid(s),
    ensures
        clocks_of(compact(s)) == clocks_of(s),
        all_valid(compact(s)),
        compact(s).len() <= s.len(),
    decreases s.len(),
{
    if s.len() > 0 {
        let t = s.drop_last();
        assert(all_valid(t));
        lemma_compact_clocks(t);
        let p = compact(t);
        let c = s.last();
        assert(c.valid());
        if p.len() > 0 && p.last().can_merge(c) {
            let q = p.drop_last();
            assert(p == q.push(p.last()));
            assert(p.last().valid());
            lemma_merge_clocks(p.last(), c);
            lemma_clocks_push(q, p.last());
            lemma_clocks_push(q, p.last().merge(c));
            assert(clocks_of(s) == clocks_of(t) + c.clocks());
            assert(clocks_of(compact(s)) =~= clocks_of(s));
            assert(all_valid(compact(s)));
        } else {
            lemma_clocks_push(p, c);
            assert(all_valid(compact(s)));
        }
    }
}

/// No two neighbouring commands of `s` fit one command.
pub open spec fn no_mergeable_neighbours(s: Seq<Command>) -> bool {
    forall|i: int| 0 <= i < s.len() - 1 ==> !(#[trigger] s[i]).can_merge(s[i + 1])
}

proof fn lemma_merge_keeps_apart(a: Command, b: Command, c: Command)
    requires
        !a.can_merge(b),
        b.can_merge(c),
    ensures
        !a.can_merge(b.merge(c)),
{
}

/// Compaction leaves no two neighbouring commands that could have been one:
/// a flush writes no command that a merge could have saved.
pub proof fn lemma_compact_is_maximal(s: Seq<Command>)
    ensures
        no_mergeable_neighbours(compact(s)),
    decreases s.len(),
{
    if s.len() > 0 {
        let t = s.drop_last();
        lemma_compact_is_maximal(t);
        let p = compact(t);
        let c = s.last();
        let r = compact(s);
        if p.len() > 0 && p.last().can_merge(c) {
            let q = p.drop_last();
            let m = p.last().merge(c);
            assert(r == q.push(m));
            assert forall|i: int| 0 <= i < r.len() - 1 implies !(#[trigger] r[i]).can_merge(
                r[i + 1],
            ) by {
                if i == r.len() - 2 {
                    assert(r[i] == p[i]);
                    assert(p[i + 1] == p.last());
                    lemma_merge_keeps_apart(p[i], p.last(), c);
                } else {
                    assert(r[i] == p[i]);
                    assert(r[i + 1] == p[i + 1]);
                }
            }
        } else {
            assert(r == p.push(c));
            assert forall|i: int| 0 <= i < r.len() - 1 implies !(#[trigger] r[i]).can_merge(
                r[i + 1],
            ) by {
                assert(r[i] == p[i]);
                if i < r.len() - 2 {
                    assert(r[i + 1] == p[i + 1]);
                }
            }
        }
    }
}

/// The three bytes of the MPSSE command for one valid step.
pub open spec fn command_bytes(c: Command) -> Seq<u8> {
    match c {
        Command::TmsBits { bit_count, tms_bits, tdi, capture } => seq![
            if capture {
                Clock_Data_to_TMS_In_on_pos_ve_Out_on_neg_ve_LSB_first
            } else {
                Clock_Data_to_TMS_on_neg_ve_LSB_first
            },
            (bit_count - 1) as u8,
            low_bits(tms_bits, bit_count) | (if tdi {
                0x80u8
            } else {
                0u8
            }),
        ],
        Command::TdiBits { bit_count, tdi_bits, capture } => seq![
            if capture {
                Clock_Data_Bits_In_on_pos_ve_and_Out_on_neg_ve_LSB_first
            } else {
                Clock_Data_Bits_Out_on_neg_ve_LSB_first
            },
            (bit_count - 1) as u8,
            low_bits(tdi_bits, bit_count),
        ],
    }
}

/// The commands of a sequence of steps, back to back.
pub open spec fn commands_bytes(s: Seq<Command>) -> Seq<u8>
    decreases s.len(),
{
    if s.len() == 0 {
        seq![]
    } else {
        commands_bytes(s.drop_last()) + command_bytes(s.last())
    }
}

/// What a flush of the queued steps `s` writes: nothing for an empty queue,
/// else the compacted commands and one send-immediate.
pub open spec fn flush_bytes(s: Seq<Command>) -> Seq<u8> {
    if s.len() == 0 {
        seq![]
    } else {
        commands_bytes(compact(s)) + seq![CmdImm]
    }
}

/// How many of the commands capture, each of which the bridge answers with one byte.
pub open spec fn capture_count(s: Seq<Command>) -> nat
    decreases s.len(),
{
    if s.len() == 0 {
        0
    } else {
        capture_count(s.drop_last()) + if s.last().captures() {
            1nat
        } else {
            0nat
        }
    }
}

/// How many TDO bits the steps capture.
pub open spec fn captured_bit_count(s: Seq<Command>) -> nat
    decreases s.len(),
{
    if s.len() == 0 {
        0
    } else {
        captured_bit_count(s.drop_last()) + if s.last().captures() {
            s.last().bits() as nat
        } else {
            0nat
        }
    }
}

/// The bits that a capturing command of `n` bits reads: the bridge shifts them
/// in from the top, so they sit in the high `n` bits of its answer, first bit lowest.
pub open spec fn bits_of_answer(c: Command, b: u8) -> Seq<bool> {
    Seq::new(c.bits() as nat, |i: int| bit_set(b, (8 - c.bits() + i) as u8))
}

/// The captured bits of the commands `s`, given one answer byte per capturing
/// command, in order.
pub open spec fn response_bits(s: Seq<Command>, r: Seq<u8>) -> Seq<bool>
    decreases s.len(),
{
    if s.len() == 0 {
        seq![]
    } else if s.last().captures() {
        response_bits(s.drop_last(), r.drop_last()) + bits_of_answer(s.last(), r.last())
    } else {
        response_bits(s.drop_last(), r)
    }
}

proof fn lemma_capture_count_push(s: Seq<Command>, c: Command)
    ensures
        capture_count(s.push(c)) == capture_count(s) + if c.captures() {
            1nat
        } else {
            0nat
        },
        captured_bit_count(s.push(c)) == captured_bit_count(s) + if c.captures() {
            c.bits() as nat
        } else {
            0nat
        },
{
    assert(s.push(c).drop_last() =~= s);
}

proof fn lemma_capture_count_bound(s: Seq<Command>)
    ensures
        capture_count(s) <= s.len(),
    decreases s.len(),
{
    if s.len() > 0 {
        lemma_capture_count_bound(s.drop_last());
    }
}

proof fn lemma_capture_count_prefix(s: Seq<Command>, i: int)
    requires
        0 <= i <= s.len(),
    ensures
        capture_count(s.take(i)) <= capture_count(s),
    decreases s.len(),
{
    if i < s.len() {
        assert(s.drop_last().take(i) =~= s.take(i));
        lemma_capture_count_prefix(s.drop_last(), i);
    } else {
        assert(s.take(i) =~= s);
    }
}

/// Compaction keeps the number of captured bits.
pub proof fn lemma_compact_captured_bits(s: Seq<Command>)
    requires
        all_valid(s),
    ensures
        captured_bit_count(compact(s)) == captured_bit_count(s),
    decreases s.len(),
{
    if s.len() > 0 {
        let t = s.drop_last();
        assert(all_valid(t));
        lemma_compact_captured_bits(t);
        lemma_compact_clocks(t);
        let p = compact(t);
        let c = s.last();
        assert(c.valid());
        if p.len() > 0 && p.last().can_merge(c) {
            let q = p.drop_last();
            assert(p == q.push(p.last()));
            assert(p.last().valid());
            lemma_merge_clocks(p.last(), c);
            lemma_capture_count_push(q, p.last());
            lemma_capture_count_push(q, p.last().merge(c));
        } else {
            lemma_capture_count_push(p, c);
        }
    }
}

/// Reassembling the answers gives one bit for each captured bit of the commands.
pub proof fn lemma_response_bits_len(s: Seq<Command>, r: Seq<u8>)
    requires
        r.len() == capture_count(s),
    ensures
        response_bits(s, r).len() == captured_bit_count(s),
    decreases s.len(),
{
    if s.len() > 0 {
        if s.last().captures() {
            lemma_response_bits_len(s.drop_last(), r.drop_last());
        } else {
            lemma_response_bits_len(s.drop_last(), r);
        }
    }
}

/// However the queued steps were compacted, the bits read back from a flush
/// are as many as the steps capture.
pub proof fn lemma_flush_captures_every_bit(s: Seq<Command>, r: Seq<u8>)
    requires
        all_valid(s),
        r.len() == capture_count(compact(s)),
    ensures
        response_bits(compact(s), r).len() == captured_bit_count(s),
{
    lemma_compact_captured_bits(s);
    lemma_response_bits_len(compact(s), r);
}

fn low_bits_of(x: u8, n: u8) -> (r: u8)
    requires
        1 <= n <= 8,
    ensures
        r == low_bits(x, n),
{
    x & (0xffu8 >> (8 - n))
}

impl Command {
    /// Whether the step fits its command.
    pub fn is_valid(&self) -> (r: bool)
        ensures
            r == self.valid(),
    {
        match *self {
            Command::TmsBits { bit_count, .. } => 1 <= bit_count && bit_count <= MAX_TMS_BITS,
            Command::TdiBits { bit_count, .. } => 1 <= bit_count && bit_count <= MAX_TDI_BITS,
        }
    }

    /// Whether this step and `next` fit one command.
    pub fn fits_with(&self, next: &Command) -> (r: bool)
        ensures
            r == self.can_merge(*next),
    {
        match (*self, *next) {
            (
                Command::TmsBits { bit_count: n1, tdi: t1, capture: c1, .. },
                Command::TmsBits { bit_count: n2, tdi: t2, capture: c2, .. },
            ) => t1 == t2 && c1 == c2 && n1 as u16 + n2 as u16 <= MAX_TMS_BITS as u16,
            (
                Command::TdiBits { bit_count: n1, capture: c1, .. },
                Command::TdiBits { bit_count: n2, capture: c2, .. },
            ) => c1 == c2 && n1 as u16 + n2 as u16 <= MAX_TDI_BITS as u16,
            _ => false,
        }
    }

    /// The single step that does this step and then `next`.
    pub fn merged_with(&self, next: &Command) -> (r: Command)
        requires
            self.valid(),
            next.valid(),
            self.can_merge(*next),
        ensures
            r == self.merge(*next),
    {
        match (*self, *next) {
            (
                Command::TmsBits { bit_count: n1, tms_bits: b1, tdi, capture },
                Command::TmsBits { bit_count: n2, tms_bits: b2, .. },
            ) => Command::TmsBits {
                bit_count: n1 + n2,
                tms_bits: low_bits_of(b1, n1) | low_bits_of(b2, n2) << n1,
                tdi,
                capture,
            },
            (
                Command::TdiBits { bit_count: n1, tdi_bits: b1, capture },
                Command::TdiBits { bit_count: n2, tdi_bits: b2, .. },
            ) => Command::TdiBits {
                bit_count: n1 + n2,
                tdi_bits: low_bits_of(b1, n1) | low_bits_of(b2, n2) << n1,
                capture,
            },
            _ => *self,
        }
    }

    /// Appends the three bytes of this step's command to `out`.
    fn push_bytes(&self, out: &mut Vec<u8>)
        requires
            self.valid(),
        ensures
            final(out)@ == old(out)@ + command_bytes(*self),
    {
        match *self {
            Command::TmsBits { bit_count, tms_bits, tdi, capture } => {
                out.push(
                    if capture {
                        Clock_Data_to_TMS_In_on_pos_ve_Out_on_neg_ve_LSB_first
                    } else {
                        Clock_Data_to_TMS_on_neg_ve_LSB_first
                    },
                );
                out.push(bit_count - 1);
                let level: u8 = if tdi { 0x80 } else { 0 };
                out.push(low_bits_of(tms_bits, bit_count) | level);
            },
            Command::TdiBits { bit_count, tdi_bits, capture } => {
                out.push(
                    if capture {
                        Clock_Data_Bits_In_on_pos_ve_and_Out_on_neg_ve_LSB_first
                    } else {
                        Clock_Data_Bits_Out_on_neg_ve_LSB_first
                    },
                );
                out.push(bit_count - 1);
                out.push(low_bits_of(tdi_bits, bit_count));
            },
        }
        assert(final(out)@ =~= old(out)@ + command_bytes(*self));
    }
}

/// Merges neighbouring steps greedily into as few commands as fit.
pub fn compact_commands(cmds: &[Command]) -> (r: Vec<Command>)
    requires
        all_valid(cmds@),
    ensures
        r@ == compact(cmds@),
        all_valid(r@),
        r@.len() <= cmds@.len(),
        no_mergeable_neighbours(r@),
{
    let mut out: Vec<Command> = Vec::new();
    let mut i: usize = 0;
    while i < cmds.len()
        invariant
            i <= cmds@.len(),
            all_valid(cmds@),
            out@ == compact(cmds@.take(i as int)),
        decreases cmds@.len() - i,
    {
        proof {
            assert(all_valid(cmds@.take(i as int)));
            lemma_compact_clocks(cmds@.take(i as int));
        }
        let c = cmds[i];
        assert(cmds@.take(i + 1).drop_last() =~= cmds@.take(i as int));
        assert(cmds@.take(i + 1).last() == c);
        let n = out.len();
        if n > 0 && out[n - 1].fits_with(&c) {
            let last = out[n - 1];
            assert(last == out@.last());
            assert(last.valid());
            let m = last.merged_with(&c);
            out.pop();
            out.push(m);
        } else {
            out.push(c);
        }
        i = i + 1;
    }
    assert(cmds@.take(cmds@.len() as int) =~= cmds@);
    proof {
        lemma_compact_clocks(cmds@);
        lemma_compact_is_maximal(cmds@);
    }
    out
}

/// The commands of `cmds`, back to back.
fn render_commands(cmds: &Vec<Command>, out: &mut Vec<u8>)
    requires
        all_valid(cmds@),
    ensures
        final(out)@ == old(out)@ + commands_bytes(cmds@),
{
    let ghost start = out@;
    let mut i: usize = 0;
    while i < cmds.len()
        invariant
            i <= cmds@.len(),
            all_valid(cmds@),
            out@ == start + commands_bytes(cmds@.take(i as int)),
        decreases cmds@.len() - i,
    {
        assert(cmds@.take(i + 1).drop_last() =~= cmds@.take(i as int));
        assert(cmds@[i as int].valid());
        cmds[i].push_bytes(out);
        i = i + 1;
        assert(out@ =~= start + commands_bytes(cmds@.take(i as int)));
    }
    assert(cmds@.take(cmds@.len() as int) =~= cmds@);
}

/// Appends the bits that the capturing command `c` read into its answer `b`.
fn push_answer_bits(c: &Command, b: u8, out: &mut Vec<bool>)
    requires
        c.valid(),
    ensures
        final(out)@ == old(out)@ + bits_of_answer(*c, b),
{
    let n: u8 = match *c {
        Command::TmsBits { bit_count, .. } => bit_count,
        Command::TdiBits { bit_count, .. } => bit_count,
    };
    let ghost start = out@;
    let mut k: u8 = 0;
    while k < n
        invariant
            k <= n,
            1 <= n <= 8,
            n == c.bits(),
            out@ == start + bits_of_answer(*c, b).take(k as int),
        decreases n - k,
    {
        out.push((b >> (8 - n + k)) & 1u8 == 1u8);
        k = k + 1;
        assert(out@ =~= start + bits_of_answer(*c, b).take(k as int));
    }
    assert(bits_of_answer(*c, b).take(n as int) =~= bits_of_answer(*c, b));
}

/// How many of `cmds` capture.
fn count_captures(cmds: &Vec<Command>) -> (r: usize)
    ensures
        r == capture_count(cmds@),
{
    let mut count: usize = 0;
    let mut i: usize = 0;
    while i < cmds.len()
        invariant
            i <= cmds@.len(),
            count == capture_count(cmds@.take(i as int)),
            count <= i,
        decreases cmds@.len() - i,
    {
        assert(cmds@.take(i + 1).drop_last() =~= cmds@.take(i as int));
        let captures = match cmds[i] {
            Command::TmsBits { capture, .. } => capture,
            Command::TdiBits { capture, .. } => capture,
        };
        if captures {
            count = count + 1;
        }
        i = i + 1;
    }
    assert(cmds@.take(cmds@.len() as int) =~= cmds@);
    count
}

/// Appends the captured bits of `cmds` that their answers `response` carry.
fn reassemble(cmds: &Vec<Command>, response: &[u8], out: &mut Vec<bool>)
    requires
        all_valid(cmds@),
        response@.len() == capture_count(cmds@),
    ensures
        final(out)@ == old(out)@ + response_bits(cmds@, response@),
{
    let ghost start = out@;
    let mut i: usize = 0;
    let mut j: usize = 0;
    while i < cmds.len()
        invariant
            i <= cmds@.len(),
            all_valid(cmds@),
            response@.len() == capture_count(cmds@),
            j == capture_count(cmds@.take(i as int)),
            j <= response@.len(),
            out@ == start + response_bits(cmds@.take(i as int), response@.take(j as int)),
        decreases cmds@.len() - i,
    {
        let ghost s = cmds@.take(i + 1);
        assert(s.drop_last() =~= cmds@.take(i as int));
        assert(s.last() == cmds@[i as int]);
        proof {
            lemma_capture_count_prefix(cmds@, i + 1);
        }
        let c = cmds[i];
        assert(c.valid());
        let captures = match c {
            Command::TmsBits { capture, .. } => capture,
            Command::TdiBits { capture, .. } => capture,
        };
        if captures {
            assert(response@.take(j + 1).drop_last() =~= response@.take(j as int));
            push_answer_bits(&c, response[j], out);
            j = j + 1;
        }
        i = i + 1;
        assert(out@ =~= start + response_bits(cmds@.take(i as int), response@.take(j as int)));
    }
    assert(cmds@.take(cmds@.len() as int) =~= cmds@);
    assert(response@.take(j as int) =~= response@);
}

/// Queues JTAG steps, renders them as compacted MPSSE commands on flush, and
/// keeps the bits that the flushed capturing steps read back.
pub struct CommandCompacter {
    queue: Vec<Command>,
    captured: Vec<bool>,
}

impl CommandCompacter {
    /// The steps queued since the last flush.
    pub closed spec fn queued(&self) -> Seq<Command> {
        self.queue@
    }

    /// The bits captured by flushes since they were last read.
    pub closed spec fn captured_bits(&self) -> Seq<bool> {
        self.captured@
    }

    /// Every queued step fits its command.
    pub closed spec fn wf(&self) -> bool {
        all_valid(self.queue@)
    }

    /// An empty queue with nothing captured.
    pub fn new() -> (r: CommandCompacter)
        ensures
            r.wf(),
            r.queued() == Seq::<Command>::empty(),
            r.captured_bits() == Seq::<bool>::empty(),
    {
        CommandCompacter { queue: Vec::new(), captured: Vec::new() }
    }

    /// How many steps are queued.
    pub fn queued_len(&self) -> (r: usize)
        ensures
            r == self.queued().len(),
    {
        self.queue.len()
    }

    /// Queues a step; a step whose bit count does not fit its command is
    /// refused and nothing changes.
    pub fn append_command(&mut self, cmd: Command) -> (r: Result<(), JtagError>)
        requires
            old(self).wf(),
        ensures
            final(self).wf(),
            match r {
                Ok(()) => cmd.valid() && final(self).queued() == old(self).queued().push(cmd)
                    && final(self).captured_bits() == old(self).captured_bits(),
                Err(e) => !cmd.valid() && e == JtagError::InvalidLength && *final(self) == *old(
                    self,
                ),
            },
    {
        if !cmd.is_valid() {
            return Err(JtagError::InvalidLength);
        }
        self.queue.push(cmd);
        assert(all_valid(self.queue@));
        Ok(())
    }

    /// The bytes that flush the queue: the compacted commands and one
    /// send-immediate, or nothing when the queue is empty.
    pub fn flush_commands(&self) -> (r: Vec<u8>)
        requires
            self.wf(),
        ensures
            r@ == flush_bytes(self.queued()),
    {
        let mut out: Vec<u8> = Vec::new();
        if self.queue.len() == 0 {
            return out;
        }
        let cmds = compact_commands(self.queue.as_slice());
        render_commands(&cmds, &mut out);
        out.push(CmdImm);
        out
    }

    /// How many bytes the bridge answers to the flush of the queue: one per
    /// capturing command.
    pub fn expected_response_len(&self) -> (r: usize)
        requires
            self.wf(),
        ensures
            r == capture_count(compact(self.queued())),
    {
        let cmds = compact_commands(self.queue.as_slice());
        count_captures(&cmds)
    }

    /// Completes a flush with the bridge's answer to it: the captured bits are
    /// appended and the queue empties. An answer of any other length than
    /// expected is a desync, and nothing changes.
    pub fn complete_flush(&mut self, response: &[u8]) -> (r: Result<(), JtagError>)
        requires
            old(self).wf(),
        ensures
            final(self).wf(),
            match r {
                Ok(()) => response@.len() == capture_count(compact(old(self).queued()))
                    && final(self).queued() == Seq::<Command>::empty()
                    && final(self).captured_bits() == old(self).captured_bits() + response_bits(
                    compact(old(self).queued()),
                    response@,
                ),
                Err(e) => response@.len() != capture_count(compact(old(self).queued())) && e
                    == JtagError::ProtocolDesync && *final(self) == *old(self),
            },
    {
        let cmds = compact_commands(self.queue.as_slice());
        if response.len() != count_captures(&cmds) {
            return Err(JtagError::ProtocolDesync);
        }
        reassemble(&cmds, response, &mut self.captured);
        self.queue = Vec::new();
        Ok(())
    }

    /// Hands out the captured bits in the order they were read and forgets
    /// them; with none captured since the last read this fails.
    pub fn read_captured_bits(&mut self) -> (r: Result<Vec<bool>, JtagError>)
        requires
            old(self).wf(),
        ensures
            final(self).wf(),
            final(self).queued() == old(self).queued(),
            match r {
                Ok(v) => old(self).captured_bits().len() > 0 && v@ == old(self).captured_bits()
                    && final(self).captured_bits() == Seq::<bool>::empty(),
                Err(e) => old(self).captured_bits().len() == 0 && e == JtagError::NothingCaptured
                    && *final(self) == *old(self),
            },
    {
        if self.captured.len() == 0 {
            return Err(JtagError::NothingCaptured);
        }
        let mut bits: Vec<bool> = Vec::new();
        std::mem::swap(&mut bits, &mut self.captured);
        Ok(bits)
    }
}

} // verus!
