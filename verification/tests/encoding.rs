use blinkt::BusPixel;
use blinkt::Pixel;

#[test]
fn brightness_zero_encodes_to_marker() {
    for (r, g, b) in [(0u8, 0u8, 0u8), (255, 255, 255), (10, 20, 30)] {
        let w = BusPixel::from_pixel(&Pixel::new(r, g, b, 0));
        assert_eq!(w.brightness, 0b1110_0000);
        assert_eq!(w.brightness, 224);
    }
}

#[test]
fn brightness_full_encodes_to_255() {
    for (r, g, b) in [(0u8, 0u8, 0u8), (255, 255, 255), (1, 2, 3)] {
        let w = BusPixel::from_pixel(&Pixel::new(r, g, b, 31));
        assert_eq!(w.brightness, 0b1110_0000 | 31);
        assert_eq!(w.brightness, 255);
    }
}

#[test]
fn brightness_above_full_uses_low_five_bits() {
    let w = BusPixel::from_pixel(&Pixel::new(0, 0, 0, 62));
    assert_eq!(w.brightness, 0b1110_0000 | 30);
}

#[test]
fn channels_pass_through_unchanged() {
    for (r, g, b) in [(0u8, 0u8, 0u8), (255, 255, 255), (0, 255, 7), (128, 64, 32)] {
        for level in [0u8, 15, 31] {
            let w = BusPixel::from_pixel(&Pixel::new(r, g, b, level));
            assert_eq!(w.red, r);
            assert_eq!(w.green, g);
            assert_eq!(w.blue, b);
        }
    }
}

#[test]
fn off_pixel_encodes_to_marker_with_zero_channels() {
    let w = BusPixel::from_pixel(&Pixel::new_off());
    assert_eq!(w, BusPixel { red: 0, green: 0, blue: 0, brightness: 224 });
}
