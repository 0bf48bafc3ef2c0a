//! Driver core for an 8-LED APA102-style RGB strip on a two-wire
//! (clock + data) bit-banged bus.
//!
//! The library holds the frame buffer of per-LED colour and brightness,
//! encodes each pixel into its 4-byte wire word, and lays out the exact
//! ordered sequence of line-level operations (start frame, pixel words,
//! end frame) that one `display` call must drive onto the two lines.
//! Performing those operations on real GPIO lines is the caller's job;
//! the [`protocol::Transmission`] cursor hands them out one at a time and
//! stops at the first reported line failure.

pub mod blinkt;
pub mod pixel;
pub mod protocol;

pub use blinkt::Blinkt;
pub use pixel::BusPixel;
pub use pixel::Pixel;
pub use protocol::Line;
pub use protocol::LineOp;
pub use protocol::Transmission;
