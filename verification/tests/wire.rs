use blinkt::Blinkt;
use blinkt::BusPixel;
use blinkt::Line;
use blinkt::LineOp;
use blinkt::Pixel;
use blinkt::Transmission;
use blinkt::protocol::end_frame;
use blinkt::protocol::start_frame;
use blinkt::protocol::write_byte;
use blinkt::protocol::write_word;

/// Reassemble the byte whose 24 operations begin at `start`: each bit is
/// the triple (set data, raise clock, lower clock), most significant bit
/// first.
fn byte_at(ops: &[LineOp], start: usize) -> u8 {
    let mut byte: u8 = 0;
    for i in 0..8 {
        let data = ops[start + 3 * i];
        assert_eq!(data.line, Line::Data);
        assert!(data.value <= 1);
        assert_eq!(ops[start + 3 * i + 1], LineOp { line: Line::Clock, value: 1 });
        assert_eq!(ops[start + 3 * i + 2], LineOp { line: Line::Clock, value: 0 });
        byte = (byte << 1) | data.value;
    }
    byte
}

/// Check one synchronization frame at `start`: data low, then `pulses`
/// raise/lower clock pairs; returns the offset just past it.
fn check_frame(ops: &[LineOp], start: usize, pulses: usize) -> usize {
    assert_eq!(ops[start], LineOp { line: Line::Data, value: 0 });
    for k in 0..pulses {
        assert_eq!(ops[start + 1 + 2 * k], LineOp { line: Line::Clock, value: 1 });
        assert_eq!(ops[start + 2 + 2 * k], LineOp { line: Line::Clock, value: 0 });
    }
    start + 1 + 2 * pulses
}

#[test]
fn write_byte_is_msb_first() {
    let mut ops: Vec<LineOp> = Vec::new();
    write_byte(&mut ops, 0b1011_0000);
    assert_eq!(ops.len(), 24);
    let expected_bits = [1u8, 0, 1, 1, 0, 0, 0, 0];
    for i in 0..8 {
        assert_eq!(ops[3 * i], LineOp { line: Line::Data, value: expected_bits[i] });
        assert_eq!(ops[3 * i + 1], LineOp { line: Line::Clock, value: 1 });
        assert_eq!(ops[3 * i + 2], LineOp { line: Line::Clock, value: 0 });
    }
    assert_eq!(byte_at(&ops, 0), 0b1011_0000);
}

#[test]
fn write_word_sends_brightness_blue_green_red() {
    let mut ops: Vec<LineOp> = Vec::new();
    let w = BusPixel { red: 1, green: 2, blue: 3, brightness: 255 };
    write_word(&mut ops, &w);
    assert_eq!(ops.len(), 96);
    assert_eq!(byte_at(&ops, 0), 255);
    assert_eq!(byte_at(&ops, 24), 3);
    assert_eq!(byte_at(&ops, 48), 2);
    assert_eq!(byte_at(&ops, 72), 1);
}

#[test]
fn frames_hold_data_low_for_the_fixed_pulse_counts() {
    let mut ops: Vec<LineOp> = Vec::new();
    start_frame(&mut ops);
    assert_eq!(ops.len(), 65);
    assert_eq!(check_frame(&ops, 0, 32), 65);

    let mut tail: Vec<LineOp> = Vec::new();
    end_frame(&mut tail);
    assert_eq!(tail.len(), 73);
    assert_eq!(check_frame(&tail, 0, 36), 73);
}

#[test]
fn display_issues_exactly_324_clock_pulses() {
    let mut b = Blinkt::new();
    b.set_pixel(0, Pixel::new(255, 128, 64, 31));
    b.set_pixel(7, Pixel::new(1, 2, 3, 16));
    let ops = b.display();
    assert_eq!(ops.len(), 906);
    let rises = ops.iter().filter(|op| op.line == Line::Clock && op.value == 1).count();
    let falls = ops.iter().filter(|op| op.line == Line::Clock && op.value == 0).count();
    assert_eq!(rises, 32 + 8 * 4 * 8 + 36);
    assert_eq!(rises, 324);
    assert_eq!(falls, 324);
}

#[test]
fn display_lays_out_start_words_end() {
    let mut b = Blinkt::new();
    b.set_pixel(0, Pixel::new(1, 2, 3, 31));
    let ops = b.display();

    let mut at: usize = check_frame(&ops, 0, 32);
    // First word: the set pixel, bytes in order brightness, blue, green, red.
    assert_eq!(byte_at(&ops, at), 255);
    assert_eq!(byte_at(&ops, at + 24), 3);
    assert_eq!(byte_at(&ops, at + 48), 2);
    assert_eq!(byte_at(&ops, at + 72), 1);
    at += 96;
    // The seven untouched slots: the off pixel's word.
    for _ in 1..8 {
        assert_eq!(byte_at(&ops, at), 224);
        assert_eq!(byte_at(&ops, at + 24), 0);
        assert_eq!(byte_at(&ops, at + 48), 0);
        assert_eq!(byte_at(&ops, at + 72), 0);
        at += 96;
    }
    assert_eq!(check_frame(&ops, at, 36), ops.len());
}

#[test]
fn transmission_hands_out_every_operation_in_order() {
    let b = Blinkt::new();
    let ops = b.display();
    let expected = ops.clone();
    let mut t = Transmission::new(ops);
    let mut seen: Vec<LineOp> = Vec::new();
    while let Some(op) = t.next_op() {
        seen.push(op);
    }
    assert_eq!(seen, expected);
    assert!(t.next_op().is_none());
}

#[test]
fn failure_at_pulse_n_stops_before_pulse_n_plus_one() {
    let b = Blinkt::new();
    let ops = b.display();
    let mut t = Transmission::new(ops);
    // The simulated hardware accepts 5 operations, then fails.
    let mut issued: usize = 0;
    while let Some(_op) = t.next_op() {
        issued += 1;
        if issued == 5 {
            t.report_failure();
        }
    }
    assert_eq!(issued, 5);
    assert!(t.next_op().is_none());
    assert!(t.next_op().is_none());
}
