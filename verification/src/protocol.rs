//! The clocked two-wire transmission protocol.
//!
//! Everything a `display` call drives onto the bus is modelled as a
//! sequence of [`LineOp`] values: "set this line to this value", in
//! order. The spec functions here define the exact sequence the protocol
//! demands — a 32-pulse start frame with data held low, then for each
//! wire word its 4 bytes most-significant bit first (data set before the
//! clock rises, clock lowered before the next bit), then a 36-pulse end
//! frame — and the executable builders produce precisely that sequence.
//!
//! A [`Transmission`] is the cursor that hands the operations to the
//! caller one at a time; reporting a line failure aborts it, so no
//! operation after the failing one is ever issued.

use vstd::prelude::*;

use crate::pixel::BusPixel;
use crate::pixel::Pixel;
use crate::pixel::spec_encode;

verus! {

/// A logical output line of the bus.
#[derive(Clone, Copy, PartialEq, Eq, Structural, Debug)]
pub enum Line {
    Clock,
    Data,
}

/// One line-level operation: drive `line` to `value` (0 low, 1 high).
#[derive(Clone, Copy, PartialEq, Eq, Structural, Debug)]
pub struct LineOp {
    pub line: Line,
    pub value: u8,
}

/// Clock pulses in the start frame, fixed by the protocol.
pub const START_FRAME_PULSES: usize = 32;

/// Clock pulses in the end frame. The protocol needs at least
/// `ceil(pixel_count / 2)` to flush the strip's shift registers; this
/// fixed count is over-provisioned, enough for up to 64 pixels.
pub const END_FRAME_PULSES: usize = 36;

/// The operation that drives the data line to `v`.
pub open spec fn set_data(v: u8) -> LineOp {
    LineOp { line: Line::Data, value: v }
}

/// The operation that drives the clock line to `v`.
pub open spec fn set_clock(v: u8) -> LineOp {
    LineOp { line: Line::Clock, value: v }
}

/// Bit `i` of `byte`, counted from the most significant: `bit_of(b, 0)`
/// is the top bit, `bit_of(b, 7)` the bottom one.
pub open spec fn bit_of(byte: u8, i: int) -> u8
    recommends
        0 <= i < 8,
{
    (byte >> (7 - i) as u8) & 1
}

/// The three operations that put one bit on the bus: set data to the
/// bit, raise the clock, lower the clock.
pub open spec fn bit_ops(byte: u8, i: int) -> Seq<LineOp>
    recommends
        0 <= i < 8,
{
    seq![set_data(bit_of(byte, i)), set_clock(1), set_clock(0)]
}

/// The operations for the first `n` bits of `byte`, most significant
/// first.
pub open spec fn byte_ops_upto(byte: u8, n: int) -> Seq<LineOp>
    recommends
        0 <= n <= 8,
    decreases n,
{
    if n <= 0 {
        Seq::empty()
    } else {
        byte_ops_upto(byte, n - 1) + bit_ops(byte, n - 1)
    }
}

/// The operations that transmit one whole byte, most significant bit
/// first.
pub open spec fn byte_ops(byte: u8) -> Seq<LineOp> {
    byte_ops_upto(byte, 8)
}

/// `n` bare clock pulses: raise then lower the clock, `n` times.
pub open spec fn pulse_ops(n: int) -> Seq<LineOp>
    recommends
        n >= 0,
    decreases n,
{
    if n <= 0 {
        Seq::empty()
    } else {
        pulse_ops(n - 1) + seq![set_clock(1), set_clock(0)]
    }
}

/// A synchronization frame: data held low, then `n` clock pulses.
pub open spec fn frame_ops(n: int) -> Seq<LineOp>
    recommends
        n >= 0,
{
    seq![set_data(0)] + pulse_ops(n)
}

/// The operations that transmit one wire word: its 4 bytes in the
/// hardware-mandated order brightness, blue, green, red.
pub open spec fn word_ops(w: BusPixel) -> Seq<LineOp> {
    byte_ops(w.brightness) + byte_ops(w.blue) + byte_ops(w.green) + byte_ops(w.red)
}

/// The operations for the first `n` wire words of `ws`, in buffer order.
pub open spec fn words_ops_upto(ws: Seq<BusPixel>, n: int) -> Seq<LineOp>
    recommends
        0 <= n <= ws.len(),
    decreases n,
{
    if n <= 0 {
        Seq::empty()
    } else {
        words_ops_upto(ws, n - 1) + word_ops(ws[n - 1])
    }
}

/// The operations for a whole sequence of wire words.
pub open spec fn words_ops(ws: Seq<BusPixel>) -> Seq<LineOp> {
    words_ops_upto(ws, ws.len() as int)
}

/// The full operation sequence of one `display` call over a pixel
/// buffer: start frame, the encoded wire word of every pixel in slot
/// order, end frame.
pub open spec fn display_ops(pixels: Seq<Pixel>) -> Seq<LineOp> {
    frame_ops(START_FRAME_PULSES as int) + words_ops(pixels.map_values(|p: Pixel| spec_encode(p)))
        + frame_ops(END_FRAME_PULSES as int)
}

/// Append the operations that transmit `byte`, most significant bit
/// first: for each bit, data is set before the clock rises and the clock
/// is lowered before the next bit.
pub fn write_byte(ops: &mut Vec<LineOp>, byte: u8)
    ensures
        final(ops)@ == old(ops)@ + byte_ops(byte),
{
    let ghost base = ops@;
    let mut i: usize = 0;
    while i < 8
        invariant
            i <= 8,
            ops@ == base + byte_ops_upto(byte, i as int),
        decreases 8 - i,
    {
        let shift: u8 = (7 - i) as u8;
        let bit: u8 = (byte >> shift) & 1;
        assert(bit == bit_of(byte, i as int));
        ops.push(LineOp { line: Line::Data, value: bit });
        ops.push(LineOp { line: Line::Clock, value: 1 });
        ops.push(LineOp { line: Line::Clock, value: 0 });
        assert(ops@ =~= base + byte_ops_upto(byte, i as int + 1));
        i = i + 1;
    }
    assert(ops@ =~= old(ops)@ + byte_ops(byte));
}

/// Append `n` bare clock pulses.
fn push_pulses(ops: &mut Vec<LineOp>, n: usize)
    ensures
        final(ops)@ == old(ops)@ + pulse_ops(n as int),
{
    let ghost base = ops@;
    let mut i: usize = 0;
    while i < n
        invariant
            i <= n,
            ops@ == base + pulse_ops(i as int),
        decreases n - i,
    {
        ops.push(LineOp { line: Line::Clock, value: 1 });
        ops.push(LineOp { line: Line::Clock, value: 0 });
        assert(ops@ =~= base + pulse_ops(i as int + 1));
        i = i + 1;
    }
}

/// Append the start frame: data low, then the fixed count of clock
/// pulses that synchronizes the strip.
pub fn start_frame(ops: &mut Vec<LineOp>)
    ensures
        final(ops)@ == old(ops)@ + frame_ops(START_FRAME_PULSES as int),
{
    ops.push(LineOp { line: Line::Data, value: 0 });
    push_pulses(ops, START_FRAME_PULSES);
    assert(ops@ =~= old(ops)@ + frame_ops(START_FRAME_PULSES as int));
}

/// Append the end frame: data low, then the fixed count of clock pulses
/// that flushes the strip's shift registers.
pub fn end_frame(ops: &mut Vec<LineOp>)
    ensures
        final(ops)@ == old(ops)@ + frame_ops(END_FRAME_PULSES as int),
{
    ops.push(LineOp { line: Line::Data, value: 0 });
    push_pulses(ops, END_FRAME_PULSES);
    assert(ops@ =~= old(ops)@ + frame_ops(END_FRAME_PULSES as int));
}

/// Append the operations that transmit one wire word: brightness, blue,
/// green, red.
pub fn write_word(ops: &mut Vec<LineOp>, w: &BusPixel)
    ensures
        final(ops)@ == old(ops)@ + word_ops(*w),
{
    write_byte(ops, w.brightness);
    write_byte(ops, w.blue);
    write_byte(ops, w.green);
    write_byte(ops, w.red);
    assert(ops@ =~= old(ops)@ + word_ops(*w));
}

/// How many clock pulses an operation sequence issues: the number of
/// operations that raise the clock line.
pub open spec fn clock_pulses(ops: Seq<LineOp>) -> nat
    decreases ops.len(),
{
    if ops.len() == 0 {
        0
    } else {
        clock_pulses(ops.drop_last()) + (if ops.last() == set_clock(1) {
            1nat
        } else {
            0nat
        })
    }
}

/// Clock pulses add up over concatenation.
pub proof fn lemma_clock_pulses_add(a: Seq<LineOp>, b: Seq<LineOp>)
    ensures
        clock_pulses(a + b) == clock_pulses(a) + clock_pulses(b),
    decreases b.len(),
{
    if b.len() == 0 {
        assert(a + b =~= a);
    } else {
        lemma_clock_pulses_add(a, b.drop_last());
        assert((a + b).drop_last() =~= a + b.drop_last());
        assert((a + b).last() == b.last());
    }
}

proof fn lemma_clock_pulses_push(s: Seq<LineOp>, op: LineOp)
    ensures
        clock_pulses(s.push(op)) == clock_pulses(s) + (if op == set_clock(1) {
            1nat
        } else {
            0nat
        }),
{
    assert(s.push(op).drop_last() =~= s);
    assert(s.push(op).last() == op);
}

proof fn lemma_clock_pulses_pulse_pair()
    ensures
        clock_pulses(seq![set_clock(1), set_clock(0)]) == 1,
{
    let e = Seq::<LineOp>::empty();
    lemma_clock_pulses_push(e, set_clock(1));
    lemma_clock_pulses_push(e.push(set_clock(1)), set_clock(0));
    assert(seq![set_clock(1), set_clock(0)] =~= e.push(set_clock(1)).push(set_clock(0)));
}

/// `n` bare pulses are `2 * n` operations and `n` clock pulses.
pub proof fn lemma_pulse_ops_count(n: int)
    requires
        n >= 0,
    ensures
        pulse_ops(n).len() == 2 * n,
        clock_pulses(pulse_ops(n)) == n,
    decreases n,
{
    if n > 0 {
        lemma_pulse_ops_count(n - 1);
        lemma_clock_pulses_pulse_pair();
        lemma_clock_pulses_add(pulse_ops(n - 1), seq![set_clock(1), set_clock(0)]);
    }
}

/// A frame of `n` pulses is `1 + 2 * n` operations and `n` clock pulses.
pub proof fn lemma_frame_ops_count(n: int)
    requires
        n >= 0,
    ensures
        frame_ops(n).len() == 1 + 2 * n,
        clock_pulses(frame_ops(n)) == n,
{
    lemma_pulse_ops_count(n);
    let e = Seq::<LineOp>::empty();
    lemma_clock_pulses_push(e, set_data(0));
    assert(seq![set_data(0)] =~= e.push(set_data(0)));
    lemma_clock_pulses_add(seq![set_data(0)], pulse_ops(n));
}

proof fn lemma_clock_pulses_bit_ops(byte: u8, i: int)
    requires
        0 <= i < 8,
    ensures
        bit_ops(byte, i).len() == 3,
        clock_pulses(bit_ops(byte, i)) == 1,
{
    let e = Seq::<LineOp>::empty();
    let d = set_data(bit_of(byte, i));
    lemma_clock_pulses_push(e, d);
    lemma_clock_pulses_push(e.push(d), set_clock(1));
    lemma_clock_pulses_push(e.push(d).push(set_clock(1)), set_clock(0));
    assert(bit_ops(byte, i) =~= e.push(d).push(set_clock(1)).push(set_clock(0)));
}

proof fn lemma_byte_ops_upto_count(byte: u8, n: int)
    requires
        0 <= n <= 8,
    ensures
        byte_ops_upto(byte, n).len() == 3 * n,
        clock_pulses(byte_ops_upto(byte, n)) == n,
    decreases n,
{
    if n > 0 {
        lemma_byte_ops_upto_count(byte, n - 1);
        lemma_clock_pulses_bit_ops(byte, n - 1);
        lemma_clock_pulses_add(byte_ops_upto(byte, n - 1), bit_ops(byte, n - 1));
    }
}

/// One byte is 24 operations and 8 clock pulses.
pub proof fn lemma_byte_ops_count(byte: u8)
    ensures
        byte_ops(byte).len() == 24,
        clock_pulses(byte_ops(byte)) == 8,
{
    lemma_byte_ops_upto_count(byte, 8);
}

/// One wire word is 96 operations and 32 clock pulses.
pub proof fn lemma_word_ops_count(w: BusPixel)
    ensures
        word_ops(w).len() == 96,
        clock_pulses(word_ops(w)) == 32,
{
    lemma_byte_ops_count(w.brightness);
    lemma_byte_ops_count(w.blue);
    lemma_byte_ops_count(w.green);
    lemma_byte_ops_count(w.red);
    lemma_clock_pulses_add(byte_ops(w.brightness), byte_ops(w.blue));
    lemma_clock_pulses_add(byte_ops(w.brightness) + byte_ops(w.blue), byte_ops(w.green));
    lemma_clock_pulses_add(
        byte_ops(w.brightness) + byte_ops(w.blue) + byte_ops(w.green),
        byte_ops(w.red),
    );
}

proof fn lemma_words_ops_upto_count(ws: Seq<BusPixel>, n: int)
    requires
        0 <= n <= ws.len(),
    ensures
        words_ops_upto(ws, n).len() == 96 * n,
        clock_pulses(words_ops_upto(ws, n)) == 32 * n,
    decreases n,
{
    if n > 0 {
        lemma_words_ops_upto_count(ws, n - 1);
        lemma_word_ops_count(ws[n - 1]);
        lemma_clock_pulses_add(words_ops_upto(ws, n - 1), word_ops(ws[n - 1]));
    }
}

/// A sequence of wire words is 96 operations and 32 clock pulses per
/// word.
pub proof fn lemma_words_ops_count(ws: Seq<BusPixel>)
    ensures
        words_ops(ws).len() == 96 * ws.len(),
        clock_pulses(words_ops(ws)) == 32 * ws.len(),
{
    lemma_words_ops_upto_count(ws, ws.len() as int);
}

/// A full `display` over an 8-pixel buffer issues exactly 32 start
/// pulses + 8 words * 4 bytes * 8 bits + 36 end pulses = 324 clock
/// pulses, in 906 line operations.
pub proof fn lemma_display_ops_pulse_count(pixels: Seq<Pixel>)
    requires
        pixels.len() == 8,
    ensures
        clock_pulses(display_ops(pixels)) == 324,
        display_ops(pixels).len() == 906,
{
    let ws = pixels.map_values(|p: Pixel| spec_encode(p));
    assert(ws.len() == 8);
    lemma_frame_ops_count(START_FRAME_PULSES as int);
    lemma_frame_ops_count(END_FRAME_PULSES as int);
    lemma_words_ops_count(ws);
    lemma_clock_pulses_add(frame_ops(START_FRAME_PULSES as int), words_ops(ws));
    lemma_clock_pulses_add(
        frame_ops(START_FRAME_PULSES as int) + words_ops(ws),
        frame_ops(END_FRAME_PULSES as int),
    );
}

proof fn lemma_byte_ops_upto_index(byte: u8, n: int, i: int)
    requires
        0 <= i < n <= 8,
    ensures
        byte_ops_upto(byte, n)[3 * i] == set_data(bit_of(byte, i)),
        byte_ops_upto(byte, n)[3 * i + 1] == set_clock(1),
        byte_ops_upto(byte, n)[3 * i + 2] == set_clock(0),
    decreases n,
{
    lemma_byte_ops_upto_count(byte, n - 1);
    if i < n - 1 {
        lemma_byte_ops_upto_index(byte, n - 1, i);
    }
}

/// Byte transmission is most-significant-bit first: within the 24
/// operations of `byte_ops(byte)`, the `i`-th bit's triple sets data to
/// bit `i` counted from the top, raises the clock, and lowers it again.
pub proof fn lemma_byte_ops_msb_first(byte: u8, i: int)
    requires
        0 <= i < 8,
    ensures
        byte_ops(byte).len() == 24,
        byte_ops(byte)[3 * i] == set_data(bit_of(byte, i)),
        byte_ops(byte)[3 * i + 1] == set_clock(1),
        byte_ops(byte)[3 * i + 2] == set_clock(0),
{
    lemma_byte_ops_count(byte);
    lemma_byte_ops_upto_index(byte, 8, i);
}

/// A transmission in progress: the full operation sequence of one
/// `display` call, a cursor over it, and whether a line failure has
/// aborted it.
///
/// The caller drains it with [`Transmission::next_op`], performing each
/// operation on the physical lines, and calls
/// [`Transmission::report_failure`] as soon as one fails: from then on no
/// further operation is handed out, so nothing past the failing pulse
/// ever reaches the lines.
pub struct Transmission {
    ops: Vec<LineOp>,
    pos: usize,
    aborted: bool,
}

impl Transmission {
    /// The operation sequence this transmission drives, in order.
    pub closed spec fn pending(&self) -> Seq<LineOp> {
        self.ops@
    }

    /// How many operations have been handed out so far.
    pub closed spec fn position(&self) -> int {
        self.pos as int
    }

    /// Whether a line failure has aborted this transmission.
    pub closed spec fn is_aborted(&self) -> bool {
        self.aborted
    }

    /// The cursor never runs past the end of the sequence.
    pub open spec fn wf(&self) -> bool {
        self.position() <= self.pending().len()
    }

    /// Start a transmission of the given operation sequence.
    pub fn new(ops: Vec<LineOp>) -> (t: Transmission)
        ensures
            t.pending() == ops@,
            t.position() == 0,
            !t.is_aborted(),
            t.wf(),
    {
        Transmission { ops, pos: 0, aborted: false }
    }

    /// Hand out the next operation to perform, in protocol order; `None`
    /// once the sequence is exhausted — or as soon as a failure has been
    /// reported, so an aborted transmission issues nothing further.
    pub fn next_op(&mut self) -> (r: Option<LineOp>)
        ensures
            old(self).wf() ==> final(self).wf(),
            final(self).pending() == old(self).pending(),
            final(self).is_aborted() == old(self).is_aborted(),
            (old(self).is_aborted() || old(self).position() >= old(self).pending().len()) ==> (r
                is None && final(self).position() == old(self).position()),
            (!old(self).is_aborted() && old(self).position() < old(self).pending().len()) ==> (r
                == Some(old(self).pending()[old(self).position()]) && final(self).position() == old(
                self,
            ).position() + 1),
    {
        if self.aborted || self.pos >= self.ops.len() {
            None
        } else {
            let op = self.ops[self.pos];
            self.pos = self.pos + 1;
            Some(op)
        }
    }

    /// Record that a line operation failed: the transmission aborts, and
    /// every later [`Transmission::next_op`] call returns `None`.
    pub fn report_failure(&mut self)
        ensures
            final(self).is_aborted(),
            final(self).pending() == old(self).pending(),
            final(self).position() == old(self).position(),
            old(self).wf() ==> final(self).wf(),
    {
        self.aborted = true;
    }
}

} // verus!
