//! Byte-exact checks of the control codes and wire records.

use vigem_rust::ctl_code;
use vigem_rust::ds4::{encode_ds4_submit_report, encode_ds4_submit_report_ex, Ds4Report, Ds4ReportExData, Ds4Touch};
use vigem_rust::ioctl::{
    encode_check_version, encode_get_user_index, encode_plugin_target, encode_unplug_target,
    encode_wait_device_ready, decode_user_index, FILE_DEVICE_BUS_EXTENDER, FILE_READ_ACCESS,
    FILE_WRITE_ACCESS, IOCTL_DS4_AWAIT_OUTPUT_AVAILABLE, IOCTL_DS4_REQUEST_NOTIFICATION,
    IOCTL_DS4_SUBMIT_REPORT, IOCTL_VIGEM_BASE, IOCTL_VIGEM_CHECK_VERSION,
    IOCTL_VIGEM_PLUGIN_TARGET, IOCTL_VIGEM_UNPLUG_TARGET, IOCTL_VIGEM_WAIT_DEVICE_READY,
    IOCTL_XUSB_GET_USER_INDEX, IOCTL_XUSB_REQUEST_NOTIFICATION, IOCTL_XUSB_SUBMIT_REPORT,
    METHOD_BUFFERED,
};
use vigem_rust::x360::encode_xusb_submit_report;
use vigem_rust::{TargetType, X360Report};

#[test]
fn ctl_code_matches_os_macro() {
    assert_eq!(ctl_code(0x2A, 0x801, 0, 2), (0x2A << 16) | (2 << 14) | (0x801 << 2));
    assert_eq!(ctl_code(0, 0, 0, 0), 0);
    assert_eq!(ctl_code(1, 1, 1, 1), (1 << 16) | (1 << 14) | (1 << 2) | 1);
}

#[test]
fn control_codes_have_fixed_values() {
    assert_eq!(IOCTL_VIGEM_PLUGIN_TARGET, 0x2AA004);
    assert_eq!(IOCTL_VIGEM_UNPLUG_TARGET, 0x2AA008);
    assert_eq!(IOCTL_VIGEM_CHECK_VERSION, 0x2AA00C);
    assert_eq!(IOCTL_VIGEM_WAIT_DEVICE_READY, 0x2AA010);
    assert_eq!(IOCTL_XUSB_REQUEST_NOTIFICATION, 0x2AE804);
    assert_eq!(IOCTL_XUSB_SUBMIT_REPORT, 0x2AA808);
    assert_eq!(IOCTL_DS4_SUBMIT_REPORT, 0x2AA80C);
    assert_eq!(IOCTL_DS4_REQUEST_NOTIFICATION, 0x2AA810);
    assert_eq!(IOCTL_XUSB_GET_USER_INDEX, 0x2AE81C);
    assert_eq!(IOCTL_DS4_AWAIT_OUTPUT_AVAILABLE, 0x2AE820);
}

#[test]
fn control_codes_agree_with_ctl_code() {
    let base = IOCTL_VIGEM_BASE;
    let dev = FILE_DEVICE_BUS_EXTENDER;
    let m = METHOD_BUFFERED;
    let w = FILE_WRITE_ACCESS;
    let rw = FILE_READ_ACCESS | FILE_WRITE_ACCESS;
    assert_eq!(IOCTL_VIGEM_PLUGIN_TARGET, ctl_code(dev, base, m, w));
    assert_eq!(IOCTL_VIGEM_UNPLUG_TARGET, ctl_code(dev, base + 0x001, m, w));
    assert_eq!(IOCTL_VIGEM_CHECK_VERSION, ctl_code(dev, base + 0x002, m, w));
    assert_eq!(IOCTL_VIGEM_WAIT_DEVICE_READY, ctl_code(dev, base + 0x003, m, w));
    assert_eq!(IOCTL_XUSB_REQUEST_NOTIFICATION, ctl_code(dev, base + 0x200, m, rw));
    assert_eq!(IOCTL_XUSB_SUBMIT_REPORT, ctl_code(dev, base + 0x201, m, w));
    assert_eq!(IOCTL_DS4_SUBMIT_REPORT, ctl_code(dev, base + 0x202, m, w));
    assert_eq!(IOCTL_DS4_REQUEST_NOTIFICATION, ctl_code(dev, base + 0x203, m, w));
    assert_eq!(IOCTL_XUSB_GET_USER_INDEX, ctl_code(dev, base + 0x206, m, rw));
    assert_eq!(IOCTL_DS4_AWAIT_OUTPUT_AVAILABLE, ctl_code(dev, base + 0x207, m, rw));
}

#[test]
fn check_version_record() {
    assert_eq!(encode_check_version(), vec![8, 0, 0, 0, 1, 0, 0, 0]);
}

#[test]
fn plugin_target_record() {
    let r = encode_plugin_target(3, TargetType::DualShock4, 0x054C, 0x05C4);
    assert_eq!(
        r,
        vec![16, 0, 0, 0, 3, 0, 0, 0, 2, 0, 0, 0, 0x4C, 0x05, 0xC4, 0x05]
    );
    let r = encode_plugin_target(1, TargetType::Xbox360, 0x045E, 0x028E);
    assert_eq!(
        r,
        vec![16, 0, 0, 0, 1, 0, 0, 0, 0, 0, 0, 0, 0x5E, 0x04, 0x8E, 0x02]
    );
}

#[test]
fn unplug_and_wait_ready_records() {
    assert_eq!(encode_unplug_target(0x01020304), vec![8, 0, 0, 0, 4, 3, 2, 1]);
    assert_eq!(encode_wait_device_ready(2), vec![8, 0, 0, 0, 2, 0, 0, 0]);
}

#[test]
fn get_user_index_round_trip() {
    let req = encode_get_user_index(5);
    assert_eq!(req, vec![12, 0, 0, 0, 5, 0, 0, 0, 0, 0, 0, 0]);
    let mut resp = req.clone();
    resp[8] = 0x78;
    resp[9] = 0x56;
    resp[10] = 0x34;
    resp[11] = 0x12;
    assert_eq!(decode_user_index(&resp), Some(0x12345678));
    let short = vec![0u8; 11];
    assert_eq!(decode_user_index(&short), None);
}

#[test]
fn xusb_submit_report_record() {
    let mut report = X360Report::default();
    report.buttons = 0x1010;
    report.left_trigger = 7;
    report.right_trigger = 255;
    report.thumb_lx = 16384;
    report.thumb_ly = -1;
    report.thumb_rx = -32768;
    report.thumb_ry = 0x1234;
    let r = encode_xusb_submit_report(9, &report);
    assert_eq!(r.len(), 20);
    assert_eq!(
        r,
        vec![
            20, 0, 0, 0, // size
            9, 0, 0, 0, // slot
            0x10, 0x10, // buttons
            7, 255, // triggers
            0x00, 0x40, // lx = 16384
            0xFF, 0xFF, // ly = -1
            0x00, 0x80, // rx = -32768
            0x34, 0x12, // ry
        ]
    );
}

#[test]
fn ds4_submit_report_record() {
    let mut report = Ds4Report::default();
    report.thumb_lx = 1;
    report.thumb_ly = 2;
    report.thumb_rx = 3;
    report.thumb_ry = 4;
    report.buttons = 0xA5C8;
    report.special = 0x03;
    report.trigger_l = 10;
    report.trigger_r = 20;
    let r = encode_ds4_submit_report(6, &report);
    assert_eq!(r.len(), 18);
    assert_eq!(
        r,
        vec![
            18, 0, 0, 0, // size
            6, 0, 0, 0, // slot
            1, 2, 3, 4, // thumbs
            0xC8, 0xA5, // buttons
            0x03, 10, 20, // special, triggers
            0, // record padding
        ]
    );
}

#[test]
fn ds4_submit_report_ex_record() {
    let mut report = Ds4ReportExData::default();
    report.timestamp = 0x0102;
    report.battery_lvl = 0x55;
    report.gyro_x = -2;
    report.accel_z = 0x0708;
    report.touch_packets_n = 1;
    let mut touch = Ds4Touch::default();
    touch.packet_counter = 9;
    touch.set_touch_1(true, 3, 100, 200);
    report.current_touch = touch;
    let r = encode_ds4_submit_report_ex(4, &report);
    // 8 header bytes, 60 logical report bytes, 3 bytes of union padding.
    assert_eq!(r.len(), 71);
    assert_eq!(&r[0..4], &[71, 0, 0, 0]);
    assert_eq!(&r[4..8], &[4, 0, 0, 0]);
    // standard fields: centered sticks, neutral D-pad, no triggers.
    assert_eq!(&r[8..17], &[128, 128, 128, 128, 8, 0, 0, 0, 0]);
    // timestamp little-endian, then battery.
    assert_eq!(&r[17..19], &[0x02, 0x01]);
    assert_eq!(r[19], 0x55);
    // gyro_x = -2 little-endian two's complement; the other motion axes
    // are zero up to accel_z.
    assert_eq!(&r[20..22], &[0xFE, 0xFF]);
    assert_eq!(&r[22..30], &[0u8; 8]);
    assert_eq!(&r[30..32], &[0x08, 0x07]);
    // reserved block, special battery, reserved, then touch packet count.
    assert_eq!(&r[32..40], &[0u8; 8]);
    assert_eq!(r[40], 1);
    // current touch packet: counter, state byte, packed coords, idle
    // second contact.
    assert_eq!(&r[41..50], &[9, 3, 100, 0x80, 12, 0, 0, 0, 0]);
    // the two previous touch packets are zeroed, then the union padding.
    assert_eq!(&r[50..71], &[0u8; 21]);
}
