//! Poll request builders and response decoders for the three notification
//! subscriptions: feedback for either controller kind, and the raw output
//! buffer. Each subscription is one blocking round trip per notification:
//! a worker thread submits the fixed request and decodes the driver's
//! response from the same buffer.

use vstd::prelude::*;

verus! {

use crate::ds4::{Ds4LightbarColor, Ds4Notification, Ds4OutputBuffer};
use crate::ioctl::spec_u32_le;
use crate::ioctl::push_u32_le;
use crate::x360::X360Notification;

/// Byte size of the notification request and response record for the first
/// controller kind.
pub const XUSB_NOTIFICATION_SIZE: u32 = 12;

/// The notification poll record for the first kind: size, slot, then zeroed
/// motor and LED fields (and one byte of record padding) that the driver
/// fills in its response.
pub open spec fn spec_xusb_notification_request_bytes(serial_no: u32) -> Seq<u8> {
    spec_u32_le(XUSB_NOTIFICATION_SIZE) + spec_u32_le(serial_no) + seq![0u8, 0u8, 0u8, 0u8]
}

/// Encodes the poll request for one feedback notification of the first kind.
pub fn encode_xusb_notification_request(serial_no: u32) -> (r: Vec<u8>)
    ensures
        r@ == spec_xusb_notification_request_bytes(serial_no),
        r@.len() == XUSB_NOTIFICATION_SIZE,
{
    let mut out: Vec<u8> = Vec::new();
    push_u32_le(&mut out, XUSB_NOTIFICATION_SIZE);
    push_u32_le(&mut out, serial_no);
    out.push(0);
    out.push(0);
    out.push(0);
    out.push(0);
    assert(out@ =~= spec_xusb_notification_request_bytes(serial_no));
    out
}

/// Decodes a feedback notification of the first kind out of the filled poll
/// record: the two motor strengths and the LED number follow the header.
/// Returns `None` exactly when the buffer is not the fixed record size.
pub fn decode_xusb_notification(buf: &Vec<u8>) -> (r: Option<X360Notification>)
    ensures
        buf@.len() == XUSB_NOTIFICATION_SIZE ==> r == Option::Some(X360Notification {
            large_motor: buf@[8],
            small_motor: buf@[9],
            led_number: buf@[10],
        }),
        buf@.len() != XUSB_NOTIFICATION_SIZE ==> r is None,
{
    if buf.len() != 12 {
        return None;
    }
    Some(X360Notification { large_motor: buf[8], small_motor: buf[9], led_number: buf[10] })
}

/// Byte size of the notification request and response record for the second
/// controller kind.
pub const DS4_NOTIFICATION_SIZE: u32 = 16;

/// The notification poll record for the second kind: size, slot, then a
/// zeroed motor-and-lightbar record (and three bytes of record padding)
/// that the driver fills in its response.
pub open spec fn spec_ds4_notification_request_bytes(serial_no: u32) -> Seq<u8> {
    spec_u32_le(DS4_NOTIFICATION_SIZE) + spec_u32_le(serial_no) + seq![
        0u8,
        0u8,
        0u8,
        0u8,
        0u8,
        0u8,
        0u8,
        0u8,
    ]
}

/// Encodes the poll request for one feedback notification of the second kind.
pub fn encode_ds4_notification_request(serial_no: u32) -> (r: Vec<u8>)
    ensures
        r@ == spec_ds4_notification_request_bytes(serial_no),
        r@.len() == DS4_NOTIFICATION_SIZE,
{
    let mut out: Vec<u8> = Vec::new();
    push_u32_le(&mut out, DS4_NOTIFICATION_SIZE);
    push_u32_le(&mut out, serial_no);
    let mut i: usize = 0;
    while i < 8
        invariant
            i <= 8,
            out@ == spec_u32_le(DS4_NOTIFICATION_SIZE) + spec_u32_le(serial_no) + Seq::new(
                i as nat,
                |j: int| 0u8,
            ),
        decreases 8 - i,
    {
        out.push(0);
        i = i + 1;
        assert(out@ =~= spec_u32_le(DS4_NOTIFICATION_SIZE) + spec_u32_le(serial_no) + Seq::new(
            i as nat,
            |j: int| 0u8,
        ));
    }
    assert(out@ =~= spec_ds4_notification_request_bytes(serial_no));
    out
}

/// Decodes a feedback notification of the second kind out of the filled
/// poll record: the two motor strengths and the lightbar color follow the
/// header. Returns `None` exactly when the buffer is not the fixed record
/// size.
pub fn decode_ds4_notification(buf: &Vec<u8>) -> (r: Option<Ds4Notification>)
    ensures
        buf@.len() == DS4_NOTIFICATION_SIZE ==> r == Option::Some(Ds4Notification {
            large_motor: buf@[8],
            small_motor: buf@[9],
            lightbar: Ds4LightbarColor { red: buf@[10], green: buf@[11], blue: buf@[12] },
        }),
        buf@.len() != DS4_NOTIFICATION_SIZE ==> r is None,
{
    if buf.len() != 16 {
        return None;
    }
    Some(
        Ds4Notification {
            large_motor: buf[8],
            small_motor: buf[9],
            lightbar: Ds4LightbarColor { red: buf[10], green: buf[11], blue: buf[12] },
        },
    )
}

/// Byte size of the await-raw-output request and response record.
pub const DS4_AWAIT_OUTPUT_SIZE: u32 = 72;

/// The await-raw-output poll record: size, slot, then a zeroed 64-byte
/// buffer the driver fills in its response.
pub open spec fn spec_ds4_await_output_request_bytes(serial_no: u32) -> Seq<u8> {
    spec_u32_le(DS4_AWAIT_OUTPUT_SIZE) + spec_u32_le(serial_no) + Seq::new(64nat, |j: int| 0u8)
}

/// Encodes the poll request for one raw 64-byte output buffer.
pub fn encode_ds4_await_output_request(serial_no: u32) -> (r: Vec<u8>)
    ensures
        r@ == spec_ds4_await_output_request_bytes(serial_no),
        r@.len() == DS4_AWAIT_OUTPUT_SIZE,
{
    let mut out: Vec<u8> = Vec::new();
    push_u32_le(&mut out, DS4_AWAIT_OUTPUT_SIZE);
    push_u32_le(&mut out, serial_no);
    let mut i: usize = 0;
    while i < 64
        invariant
            i <= 64,
            out@ == spec_u32_le(DS4_AWAIT_OUTPUT_SIZE) + spec_u32_le(serial_no) + Seq::new(
                i as nat,
                |j: int| 0u8,
            ),
        decreases 64 - i,
    {
        out.push(0);
        i = i + 1;
        assert(out@ =~= spec_u32_le(DS4_AWAIT_OUTPUT_SIZE) + spec_u32_le(serial_no) + Seq::new(
            i as nat,
            |j: int| 0u8,
        ));
    }
    assert(out@ =~= spec_ds4_await_output_request_bytes(serial_no));
    out
}

/// Decodes a raw output packet out of the filled poll record: the 64 buffer
/// bytes follow the header unchanged. Returns `None` exactly when the
/// buffer is not the fixed record size.
pub fn decode_ds4_output(buf: &Vec<u8>) -> (r: Option<Ds4OutputBuffer>)
    ensures
        buf@.len() == DS4_AWAIT_OUTPUT_SIZE ==> (r matches Option::Some(o) && o.buf@ == buf@.subrange(
            8,
            72,
        )),
        buf@.len() != DS4_AWAIT_OUTPUT_SIZE ==> r is None,
{
    if buf.len() != 72 {
        return None;
    }
    let mut arr: [u8; 64] = [0; 64];
    let mut i: usize = 0;
    while i < 64
        invariant
            i <= 64,
            buf@.len() == 72,
            forall|j: int| 0 <= j < i ==> arr@[j] == buf@[8 + j],
        decreases 64 - i,
    {
        arr[i] = buf[8 + i];
        i = i + 1;
    }
    assert(arr@ =~= buf@.subrange(8, 72));
    Some(Ds4OutputBuffer { buf: arr })
}

} // verus!
