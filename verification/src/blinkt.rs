//! The frame buffer and the driver-facing operations over it.
//!
//! A [`Blinkt`] holds the fixed 8-slot pixel buffer. Callers mutate it
//! with [`Blinkt::set_pixel`] and [`Blinkt::clear`], and read the
//! operations one full transmission must drive onto the bus with
//! [`Blinkt::display`]; performing them on physical lines is left to the
//! caller (see [`crate::protocol::Transmission`]).

use vstd::prelude::*;

use crate::pixel::BusPixel;
use crate::pixel::Pixel;
use crate::pixel::off_pixel;
use crate::pixel::spec_encode;
use crate::protocol::LineOp;
use crate::protocol::display_ops;
use crate::protocol::end_frame;
use crate::protocol::start_frame;
use crate::protocol::words_ops_upto;
use crate::protocol::write_word;

verus! {

/// How many pixels the strip has. Fixed for the lifetime of a driver
/// instance.
pub const NUM_PIXELS: usize = 8;

/// The driver's frame buffer: one [`Pixel`] per LED position, in strip
/// order.
pub struct Blinkt {
    pixels: Vec<Pixel>,
}

impl View for Blinkt {
    type V = Seq<Pixel>;

    closed spec fn view(&self) -> Seq<Pixel> {
        self.pixels@
    }
}

impl Blinkt {
    /// The buffer always holds exactly [`NUM_PIXELS`] slots; every
    /// constructor establishes this and every method preserves it.
    pub open spec fn wf(&self) -> bool {
        self@.len() == NUM_PIXELS
    }

    /// A fresh driver: every slot off.
    pub fn new() -> (b: Blinkt)
        ensures
            b.wf(),
            forall|i: int| 0 <= i < b@.len() ==> b@[i] == off_pixel(),
    {
        let mut pixels: Vec<Pixel> = Vec::new();
        let mut i: usize = 0;
        while i < NUM_PIXELS
            invariant
                i <= NUM_PIXELS,
                pixels@.len() == i,
                forall|j: int| 0 <= j < i ==> pixels@[j] == off_pixel(),
            decreases NUM_PIXELS - i,
        {
            pixels.push(Pixel::new_off());
            i = i + 1;
        }
        Blinkt { pixels }
    }

    /// The number of pixel slots.
    pub fn number_of_pixels(&self) -> (n: usize)
        ensures
            n == self@.len(),
    {
        self.pixels.len()
    }

    /// Write `pixel` into slot `index` if it is in range; an
    /// out-of-range index leaves the buffer untouched (a silent no-op,
    /// never a panic).
    pub fn set_pixel(&mut self, index: usize, pixel: Pixel)
        ensures
            final(self)@.len() == old(self)@.len(),
            index < old(self)@.len() ==> final(self)@ == old(self)@.update(index as int, pixel),
            index >= old(self)@.len() ==> final(self)@ == old(self)@,
    {
        if index < self.pixels.len() {
            self.pixels[index] = pixel;
        }
    }

    /// The wire encoding of the current buffer, one wire word per slot
    /// in slot order. This is the only buffer read that transmission
    /// uses.
    pub fn get_bus_pixels(&self) -> (ws: Vec<BusPixel>)
        ensures
            ws@ == self@.map_values(|p: Pixel| spec_encode(p)),
    {
        let mut ws: Vec<BusPixel> = Vec::new();
        let mut i: usize = 0;
        let n = self.pixels.len();
        while i < n
            invariant
                i <= n,
                n == self@.len(),
                ws@.len() == i,
                forall|j: int| 0 <= j < i ==> ws@[j] == spec_encode(self@[j]),
            decreases n - i,
        {
            ws.push(BusPixel::from_pixel(&self.pixels[i]));
            i = i + 1;
        }
        assert(ws@ =~= self@.map_values(|p: Pixel| spec_encode(p)));
        ws
    }

    /// The full, ordered operation sequence that one transmission of the
    /// current buffer must drive onto the lines: start frame, every
    /// slot's wire word in order, end frame.
    pub fn display(&self) -> (ops: Vec<LineOp>)
        ensures
            ops@ == display_ops(self@),
    {
        let ghost words = self@.map_values(|p: Pixel| spec_encode(p));
        let mut ops: Vec<LineOp> = Vec::new();
        start_frame(&mut ops);
        let ghost after_start = ops@;
        let bus_pixels = self.get_bus_pixels();
        let n = bus_pixels.len();
        let mut i: usize = 0;
        while i < n
            invariant
                i <= n,
                n == words.len(),
                bus_pixels@ == words,
                ops@ == after_start + words_ops_upto(words, i as int),
            decreases n - i,
        {
            write_word(&mut ops, &bus_pixels[i]);
            assert(ops@ =~= after_start + words_ops_upto(words, i as int + 1));
            i = i + 1;
        }
        end_frame(&mut ops);
        assert(ops@ =~= display_ops(self@));
        ops
    }

    /// Clear the strip: overwrite every slot with the off pixel, and
    /// hand back the operations of the one full transmission that must
    /// follow, so the physical strip cannot be left showing stale light.
    pub fn clear(&mut self) -> (ops: Vec<LineOp>)
        ensures
            final(self)@.len() == old(self)@.len(),
            forall|i: int| 0 <= i < final(self)@.len() ==> final(self)@[i] == off_pixel(),
            ops@ == display_ops(final(self)@),
    {
        let n = self.pixels.len();
        let mut i: usize = 0;
        while i < n
            invariant
                i <= n,
                n == self@.len(),
                forall|j: int| 0 <= j < i ==> self@[j] == off_pixel(),
            decreases n - i,
        {
            self.pixels[i] = Pixel::new_off();
            i = i + 1;
        }
        self.display()
    }
}

/// A cleared buffer's snapshot is uniform: every wire word is the off
/// pixel's encoding — colour channels zero, brightness byte the bare
/// framing marker.
pub proof fn lemma_cleared_snapshot(pixels: Seq<Pixel>, ws: Seq<BusPixel>)
    requires
        ws == pixels.map_values(|p: Pixel| spec_encode(p)),
        forall|i: int| 0 <= i < pixels.len() ==> pixels[i] == off_pixel(),
    ensures
        ws.len() == pixels.len(),
        forall|i: int|
            0 <= i < ws.len() ==> ws[i] == (BusPixel {
                red: 0,
                green: 0,
                blue: 0,
                brightness: 0xE0,
            }),
{
    crate::pixel::lemma_encode_off();
}

} // verus!
