use blinkt::Blinkt;
use blinkt::BusPixel;
use blinkt::Line;
use blinkt::LineOp;
use blinkt::Pixel;

fn clock_rises(ops: &[LineOp]) -> usize {
    ops.iter().filter(|op| op.line == Line::Clock && op.value == 1).count()
}

#[test]
fn new_buffer_has_eight_off_slots() {
    let b = Blinkt::new();
    assert_eq!(b.number_of_pixels(), 8);
    let ws = b.get_bus_pixels();
    assert_eq!(ws.len(), 8);
    for w in &ws {
        assert_eq!(*w, BusPixel { red: 0, green: 0, blue: 0, brightness: 224 });
    }
}

#[test]
fn set_pixel_out_of_range_is_a_silent_no_op() {
    let mut b = Blinkt::new();
    b.set_pixel(2, Pixel::new(5, 6, 7, 20));
    let before = b.get_bus_pixels();
    b.set_pixel(8, Pixel::new(255, 255, 255, 31));
    b.set_pixel(100, Pixel::new(1, 1, 1, 1));
    let after = b.get_bus_pixels();
    assert_eq!(before, after);
}

#[test]
fn set_pixel_in_range_replaces_exactly_that_slot() {
    let mut b = Blinkt::new();
    let before = b.get_bus_pixels();
    b.set_pixel(3, Pixel::new(10, 20, 30, 31));
    let after = b.get_bus_pixels();
    for i in 0..8 {
        if i == 3 {
            assert_eq!(after[i], BusPixel { red: 10, green: 20, blue: 30, brightness: 255 });
        } else {
            assert_eq!(after[i], before[i]);
        }
    }
}

#[test]
fn clear_turns_every_slot_off_and_yields_one_transmission() {
    let mut b = Blinkt::new();
    for i in 0..8 {
        b.set_pixel(i, Pixel::new(200, 100, 50, 31));
    }
    let ops = b.clear();
    let ws = b.get_bus_pixels();
    for w in &ws {
        assert_eq!(*w, BusPixel { red: 0, green: 0, blue: 0, brightness: 224 });
    }
    // Exactly the one full transmission of the cleared buffer.
    assert_eq!(ops, b.display());
    assert_eq!(ops.len(), 906);
    assert_eq!(clock_rises(&ops), 324);
}
