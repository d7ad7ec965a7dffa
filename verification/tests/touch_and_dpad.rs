//! The bit-packed touch and D-pad encodings: round-trip stability,
//! clamping, active-low contact state, and D-pad bit isolation.

use vigem_rust::ds4::{
    Ds4Dpad, Ds4Report, Ds4ReportExData, Ds4Touch, DS4_BUTTON_CROSS, DS4_BUTTON_SQUARE,
};

#[test]
fn coords_round_trip_in_range() {
    for &(x, y) in &[(0u16, 0u16), (1919, 942), (1, 942), (1919, 0), (960, 471), (255, 16)] {
        let mut buf = [0u8; 3];
        Ds4Touch::pack_coords(&mut buf, x, y);
        assert_eq!(Ds4Touch::unpack_coords(&buf), (x, y));
        // Packing what was unpacked yields the identical bytes.
        let (ux, uy) = Ds4Touch::unpack_coords(&buf);
        let mut buf2 = [0u8; 3];
        Ds4Touch::pack_coords(&mut buf2, ux, uy);
        assert_eq!(buf, buf2);
    }
}

#[test]
fn coords_clamped_not_wrapped() {
    let mut expected = [0u8; 3];
    Ds4Touch::pack_coords(&mut expected, 1919, 942);
    let mut buf = [0u8; 3];
    Ds4Touch::pack_coords(&mut buf, 5000, 60000);
    assert_eq!(buf, expected);
    assert_eq!(Ds4Touch::unpack_coords(&buf), (1919, 942));
    // Just above each bound clamps to the bound.
    Ds4Touch::pack_coords(&mut buf, 1920, 943);
    assert_eq!(buf, expected);
}

#[test]
fn coord_packing_layout() {
    let mut buf = [0u8; 3];
    Ds4Touch::pack_coords(&mut buf, 0x06BC, 0x03A2);
    // byte 0: low 8 bits of x; byte 1: high 4 of x | low 4 of y shifted;
    // byte 2: high 8 bits of y.
    assert_eq!(buf, [0xBC, 0x06 | 0x20, 0x3A]);
}

#[test]
fn touch_down_encoding() {
    let mut t = Ds4Touch::default();
    t.set_touch_1(true, 42, 10, 20);
    // down: top bit clear, id in the low 7 bits.
    assert_eq!(t.is_up_tracking_num_1 & 0x80, 0);
    assert!(t.get_is_down_1());
    assert_eq!(t.get_tracking_num_1(), 42);

    t.set_touch_1(false, 42, 10, 20);
    // up: top bit set, id preserved.
    assert_eq!(t.is_up_tracking_num_1 & 0x80, 0x80);
    assert!(!t.get_is_down_1());
    assert_eq!(t.get_tracking_num_1(), 42);

    for id in 0u8..=127 {
        t.set_touch_2(true, id, 0, 0);
        assert!(t.get_is_down_2());
        assert_eq!(t.get_tracking_num_2(), id);
        t.set_touch_2(false, id, 0, 0);
        assert!(!t.get_is_down_2());
        assert_eq!(t.get_tracking_num_2(), id);
    }
}

#[test]
fn touch_contacts_do_not_disturb_each_other() {
    let mut t = Ds4Touch::default();
    t.packet_counter = 9;
    t.set_touch_1(true, 1, 100, 200);
    let first = (t.is_up_tracking_num_1, t.touch_data_1);
    t.set_touch_2(false, 2, 300, 400);
    assert_eq!((t.is_up_tracking_num_1, t.touch_data_1), first);
    assert_eq!(t.get_packet_counter(), 9);
    assert_eq!(t.get_coords_1(), (100, 200));
    assert_eq!(t.get_coords_2(), (300, 400));
}

#[test]
fn dpad_touches_only_low_nibble() {
    let mut report = Ds4Report::default();
    report.buttons = 0xABC0;
    report.set_dpad(Ds4Dpad::East);
    assert_eq!(report.buttons, 0xABC2);
    // the high bits are untouched...
    assert_eq!(report.buttons & !0x000F, 0xABC0);
    // ...and the nibble holds exactly the direction.
    assert_eq!(report.buttons & 0x000F, 2);
    report.set_dpad(Ds4Dpad::Neutral);
    assert_eq!(report.buttons, 0xABC8);
}

#[test]
fn button_bits_do_not_disturb_dpad() {
    let mut report = Ds4Report::default();
    report.set_dpad(Ds4Dpad::South);
    let nibble = report.buttons & 0x000F;
    report.buttons |= DS4_BUTTON_CROSS | DS4_BUTTON_SQUARE;
    assert_eq!(report.buttons & 0x000F, nibble);
}

#[test]
fn dpad_direction_values() {
    let dirs = [
        (Ds4Dpad::North, 0u16),
        (Ds4Dpad::NorthEast, 1),
        (Ds4Dpad::East, 2),
        (Ds4Dpad::SouthEast, 3),
        (Ds4Dpad::South, 4),
        (Ds4Dpad::SouthWest, 5),
        (Ds4Dpad::West, 6),
        (Ds4Dpad::NorthWest, 7),
        (Ds4Dpad::Neutral, 8),
    ];
    for &(d, v) in &dirs {
        let mut report = Ds4Report::default();
        report.set_dpad(d);
        assert_eq!(report.buttons & 0x000F, v);
    }
}

#[test]
fn extended_report_dpad_and_base_copy() {
    let mut ex = Ds4ReportExData::default();
    ex.buttons = 0x5550;
    ex.set_dpad(Ds4Dpad::West);
    assert_eq!(ex.buttons, 0x5556);
    ex.trigger_r = 77;
    let base = ex.as_report();
    assert_eq!(base.buttons, 0x5556);
    assert_eq!(base.trigger_r, 77);
    assert_eq!(base.thumb_lx, 128);
}

#[test]
fn default_reports_are_neutral() {
    let r = Ds4Report::default();
    assert_eq!(
        (r.thumb_lx, r.thumb_ly, r.thumb_rx, r.thumb_ry),
        (128, 128, 128, 128)
    );
    assert_eq!(r.buttons, 8); // D-pad neutral
    assert_eq!((r.special, r.trigger_l, r.trigger_r), (0, 0, 0));

    let ex = Ds4ReportExData::default();
    assert_eq!(ex.buttons, 8);
    assert_eq!(ex.thumb_ry, 128);
    assert_eq!(ex.touch_packets_n, 0);
}
