use mem_reduct::trayicon::{in_rounded_rect, is_border, render, unpack_color, TrayIconStyle, SIZE};

fn pixel(buf: &[u8], x: usize, y: usize) -> [u8; 4] {
    let i = (y * SIZE + x) * 4;
    [buf[i], buf[i + 1], buf[i + 2], buf[i + 3]]
}

#[test]
fn colours_unpack_as_rgb() {
    assert_eq!(unpack_color(0x00EC_1C24), [0xEC, 0x1C, 0x24]);
    assert_eq!(unpack_color(0xFF00_0001), [0x00, 0x00, 0x01]);
}

#[test]
fn background_border_and_corners() {
    let style = TrayIconStyle::default();
    let buf = render(0, &style);
    assert_eq!(buf.len(), 32 * 32 * 4);
    assert_eq!(pixel(&buf, 0, 0), [0x00, 0x80, 0x40, 0xff]);
    let framed = TrayIconStyle { border: true, round: true, ..TrayIconStyle::default() };
    let buf = render(0, &framed);
    assert_eq!(pixel(&buf, 0, 0), [0, 0, 0, 0]);
    assert_eq!(pixel(&buf, 16, 0), [0xff, 0xff, 0xff, 0xff]);
    let clear = TrayIconStyle { transparent: true, ..TrayIconStyle::default() };
    assert_eq!(pixel(&render(0, &clear), 1, 1)[3], 0);
    assert!(!in_rounded_rect(0, 0));
    assert!(in_rounded_rect(16, 16));
    assert!(!in_rounded_rect(32, 3));
    assert!(is_border(0, 5) && is_border(31, 5) && !is_border(5, 5));
}

#[test]
fn digits_are_drawn_in_the_foreground() {
    let style = TrayIconStyle::default();
    let buf = render(8, &style);
    // One digit at scale 5: the 15 x 25 glyph starts at (8, 3); the top row
    // of an 8 is fully set.
    assert_eq!(pixel(&buf, 8, 3), [0xff, 0xff, 0xff, 0xff]);
    assert_eq!(pixel(&buf, 7, 3), [0x00, 0x80, 0x40, 0xff]);
    let capped = render(5000, &style);
    assert_eq!(capped, render(999, &style));
}
