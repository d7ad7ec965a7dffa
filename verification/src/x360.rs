//! Input report and feedback notification for the first controller kind:
//! a 16-bit button mask, two trigger bytes and four signed 16-bit axes.

use vstd::prelude::*;

verus! {

use crate::ioctl::{spec_i16_le, spec_u16_le, spec_u32_le, push_i16_le, push_u16_le, push_u32_le};

/// Button bit: D-pad up.
pub const X360_BUTTON_DPAD_UP: u16 = 0x0001;

/// Button bit: D-pad down.
pub const X360_BUTTON_DPAD_DOWN: u16 = 0x0002;

/// Button bit: D-pad left.
pub const X360_BUTTON_DPAD_LEFT: u16 = 0x0004;

/// Button bit: D-pad right.
pub const X360_BUTTON_DPAD_RIGHT: u16 = 0x0008;

/// Button bit: start.
pub const X360_BUTTON_START: u16 = 0x0010;

/// Button bit: back.
pub const X360_BUTTON_BACK: u16 = 0x0020;

/// Button bit: left thumbstick click.
pub const X360_BUTTON_LEFT_THUMB: u16 = 0x0040;

/// Button bit: right thumbstick click.
pub const X360_BUTTON_RIGHT_THUMB: u16 = 0x0080;

/// Button bit: left shoulder.
pub const X360_BUTTON_LEFT_SHOULDER: u16 = 0x0100;

/// Button bit: right shoulder.
pub const X360_BUTTON_RIGHT_SHOULDER: u16 = 0x0200;

/// Button bit: guide.
pub const X360_BUTTON_GUIDE: u16 = 0x0400;

/// Button bit: A.
pub const X360_BUTTON_A: u16 = 0x1000;

/// Button bit: B.
pub const X360_BUTTON_B: u16 = 0x2000;

/// Button bit: X.
pub const X360_BUTTON_X: u16 = 0x4000;

/// Button bit: Y.
pub const X360_BUTTON_Y: u16 = 0x8000;

/// The full input state of a virtual controller of the first kind.
#[derive(Debug, Clone, Copy, PartialEq, Eq, Structural)]
pub struct X360Report {
    /// Bitmask of the digital buttons (`X360_BUTTON_*`).
    pub buttons: u16,
    /// Left trigger value (0-255).
    pub left_trigger: u8,
    /// Right trigger value (0-255).
    pub right_trigger: u8,
    /// Left thumbstick X-axis (-32768 to 32767). 0 is center.
    pub thumb_lx: i16,
    /// Left thumbstick Y-axis (-32768 to 32767). 0 is center.
    pub thumb_ly: i16,
    /// Right thumbstick X-axis (-32768 to 32767). 0 is center.
    pub thumb_rx: i16,
    /// Right thumbstick Y-axis (-32768 to 32767). 0 is center.
    pub thumb_ry: i16,
}

impl Default for X360Report {
    /// The neutral state: no buttons, triggers released, sticks centered.
    fn default() -> (r: Self)
        ensures
            r.buttons == 0u16,
            r.left_trigger == 0u8,
            r.right_trigger == 0u8,
            r.thumb_lx == 0i16,
            r.thumb_ly == 0i16,
            r.thumb_rx == 0i16,
            r.thumb_ry == 0i16,
    {
        X360Report {
            buttons: 0,
            left_trigger: 0,
            right_trigger: 0,
            thumb_lx: 0,
            thumb_ly: 0,
            thumb_rx: 0,
            thumb_ry: 0,
        }
    }
}

/// The 12 wire bytes of an input report of the first kind: button mask,
/// triggers, then the four axes, all little-endian.
pub open spec fn spec_x360_report_bytes(r: X360Report) -> Seq<u8> {
    spec_u16_le(r.buttons) + seq![r.left_trigger, r.right_trigger] + spec_i16_le(r.thumb_lx)
        + spec_i16_le(r.thumb_ly) + spec_i16_le(r.thumb_rx) + spec_i16_le(r.thumb_ry)
}

/// Byte size of the submit-report request record for the first kind.
pub const XUSB_SUBMIT_REPORT_SIZE: u32 = 20;

/// The submit-report request record for the first kind: size, slot, then
/// the 12 report bytes.
pub open spec fn spec_xusb_submit_report_bytes(serial_no: u32, r: X360Report) -> Seq<u8> {
    spec_u32_le(XUSB_SUBMIT_REPORT_SIZE) + spec_u32_le(serial_no) + spec_x360_report_bytes(r)
}

/// Encodes the request that submits `report` as the input state of the
/// target in slot `serial_no`.
pub fn encode_xusb_submit_report(serial_no: u32, report: &X360Report) -> (r: Vec<u8>)
    ensures
        r@ == spec_xusb_submit_report_bytes(serial_no, *report),
        r@.len() == XUSB_SUBMIT_REPORT_SIZE,
{
    let mut out: Vec<u8> = Vec::new();
    push_u32_le(&mut out, XUSB_SUBMIT_REPORT_SIZE);
    push_u32_le(&mut out, serial_no);
    push_u16_le(&mut out, report.buttons);
    out.push(report.left_trigger);
    out.push(report.right_trigger);
    push_i16_le(&mut out, report.thumb_lx);
    push_i16_le(&mut out, report.thumb_ly);
    push_i16_le(&mut out, report.thumb_rx);
    push_i16_le(&mut out, report.thumb_ry);
    assert(out@ =~= spec_xusb_submit_report_bytes(serial_no, *report));
    out
}

/// Host feedback for a target of the first kind: two rumble motors and the
/// player LED index.
#[derive(Debug, Clone, Copy, PartialEq, Eq, Structural)]
pub struct X360Notification {
    /// Rumble strength for the large motor (0-255).
    pub large_motor: u8,
    /// Rumble strength for the small motor (0-255).
    pub small_motor: u8,
    /// The player number assigned to the controller, indicated by the LED.
    pub led_number: u8,
}

} // verus!
