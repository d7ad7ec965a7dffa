//! Device-control codes and fixed-layout request records for the bus driver.
//!
//! Every logical operation on the bus is one control request with a fixed
//! opcode and a fixed-size little-endian payload whose first field is the
//! exact size of the record the driver expects. A size mismatch is a protocol
//! violation, so each encoder pins every byte of its output.

use vstd::prelude::*;

verus! {

use crate::target::{TargetType, spec_target_type_value};

/// Device type for a bus-extender device, as the OS defines it.
pub const FILE_DEVICE_BUS_EXTENDER: u32 = 0x2A;

/// Buffered transfer method for a device-control request.
pub const METHOD_BUFFERED: u32 = 0;

/// Read-access bit of a device-control code.
pub const FILE_READ_ACCESS: u32 = 1;

/// Write-access bit of a device-control code.
pub const FILE_WRITE_ACCESS: u32 = 2;

/// First function number of the bus driver's private control-code range.
pub const IOCTL_VIGEM_BASE: u32 = 0x801;

/// How a device-control code is assembled from its four fields.
pub open spec fn spec_ctl_code(device_type: u32, function: u32, method: u32, access: u32) -> u32 {
    (device_type << 16) | (access << 14) | (function << 2) | method
}

/// Assembles a device-control code from device type, function number,
/// transfer method and access bits, exactly as the OS macro does.
pub fn ctl_code(device_type: u32, function: u32, method: u32, access: u32) -> (r: u32)
    ensures
        r == spec_ctl_code(device_type, function, method, access),
{
    (device_type << 16) | (access << 14) | (function << 2) | method
}

/// Control code: plug a new target into the bus.
pub const IOCTL_VIGEM_PLUGIN_TARGET: u32 = (0x2A << 16) | (2 << 14) | (0x801 << 2);

/// Control code: unplug a target from the bus.
pub const IOCTL_VIGEM_UNPLUG_TARGET: u32 = (0x2A << 16) | (2 << 14) | (0x802 << 2);

/// Control code: check the bus protocol version.
pub const IOCTL_VIGEM_CHECK_VERSION: u32 = (0x2A << 16) | (2 << 14) | (0x803 << 2);

/// Control code: wait until a plugged device reports ready (unreliable).
pub const IOCTL_VIGEM_WAIT_DEVICE_READY: u32 = (0x2A << 16) | (2 << 14) | (0x804 << 2);

/// Control code: poll one feedback notification for the first controller kind.
pub const IOCTL_XUSB_REQUEST_NOTIFICATION: u32 = (0x2A << 16) | (3 << 14) | (0xA01 << 2);

/// Control code: submit an input report for the first controller kind.
pub const IOCTL_XUSB_SUBMIT_REPORT: u32 = (0x2A << 16) | (2 << 14) | (0xA02 << 2);

/// Control code: submit an input report for the second controller kind.
pub const IOCTL_DS4_SUBMIT_REPORT: u32 = (0x2A << 16) | (2 << 14) | (0xA03 << 2);

/// Control code: poll one feedback notification for the second controller kind.
pub const IOCTL_DS4_REQUEST_NOTIFICATION: u32 = (0x2A << 16) | (2 << 14) | (0xA04 << 2);

/// Control code: read the driver-reported user index of a target.
pub const IOCTL_XUSB_GET_USER_INDEX: u32 = (0x2A << 16) | (3 << 14) | (0xA07 << 2);

/// Control code: await one raw 64-byte output buffer.
pub const IOCTL_DS4_AWAIT_OUTPUT_AVAILABLE: u32 = (0x2A << 16) | (3 << 14) | (0xA08 << 2);

/// The little-endian byte pair of a 16-bit value.
pub open spec fn spec_u16_le(x: u16) -> Seq<u8> {
    seq![(x & 0xFF) as u8, ((x >> 8) & 0xFF) as u8]
}

/// The four little-endian bytes of a 32-bit value.
pub open spec fn spec_u32_le(x: u32) -> Seq<u8> {
    seq![
        (x & 0xFF) as u8,
        ((x >> 8) & 0xFF) as u8,
        ((x >> 16) & 0xFF) as u8,
        ((x >> 24) & 0xFF) as u8,
    ]
}

/// The little-endian byte pair of a signed 16-bit value (two's complement).
pub open spec fn spec_i16_le(x: i16) -> Seq<u8> {
    spec_u16_le(x as u16)
}

/// The 16-bit value read from two little-endian bytes.
pub open spec fn spec_u16_from_le(b0: u8, b1: u8) -> u16 {
    (b0 as u16) | ((b1 as u16) << 8)
}

/// The 32-bit value read from four little-endian bytes.
pub open spec fn spec_u32_from_le(b0: u8, b1: u8, b2: u8, b3: u8) -> u32 {
    (b0 as u32) | ((b1 as u32) << 8) | ((b2 as u32) << 16) | ((b3 as u32) << 24)
}

/// Appends the two little-endian bytes of `x` to `out`.
pub fn push_u16_le(out: &mut Vec<u8>, x: u16)
    ensures
        final(out)@ == old(out)@ + spec_u16_le(x),
{
    out.push((x & 0xFF) as u8);
    out.push(((x >> 8) & 0xFF) as u8);
    assert(out@ =~= old(out)@ + spec_u16_le(x));
}

/// Appends the four little-endian bytes of `x` to `out`.
pub fn push_u32_le(out: &mut Vec<u8>, x: u32)
    ensures
        final(out)@ == old(out)@ + spec_u32_le(x),
{
    out.push((x & 0xFF) as u8);
    out.push(((x >> 8) & 0xFF) as u8);
    out.push(((x >> 16) & 0xFF) as u8);
    out.push(((x >> 24) & 0xFF) as u8);
    assert(out@ =~= old(out)@ + spec_u32_le(x));
}

/// Appends the two little-endian bytes of a signed 16-bit value to `out`.
pub fn push_i16_le(out: &mut Vec<u8>, x: i16)
    ensures
        final(out)@ == old(out)@ + spec_i16_le(x),
{
    push_u16_le(out, x as u16);
}

/// Protocol version this client speaks.
pub const BUS_VERSION: u32 = 1;

/// Byte size of the version-check request record.
pub const CHECK_VERSION_SIZE: u32 = 8;

/// The version-check request record: size, then protocol version.
pub open spec fn spec_check_version_bytes() -> Seq<u8> {
    spec_u32_le(CHECK_VERSION_SIZE) + spec_u32_le(BUS_VERSION)
}

/// Encodes the version-check request sent while probing candidate devices.
pub fn encode_check_version() -> (r: Vec<u8>)
    ensures
        r@ == spec_check_version_bytes(),
        r@.len() == CHECK_VERSION_SIZE,
{
    let mut out: Vec<u8> = Vec::new();
    push_u32_le(&mut out, CHECK_VERSION_SIZE);
    push_u32_le(&mut out, BUS_VERSION);
    assert(out@ =~= spec_check_version_bytes());
    out
}

/// Byte size of the unplug-target request record.
pub const UNPLUG_TARGET_SIZE: u32 = 8;

/// The unplug-target request record: size, then slot number.
pub open spec fn spec_unplug_target_bytes(serial_no: u32) -> Seq<u8> {
    spec_u32_le(UNPLUG_TARGET_SIZE) + spec_u32_le(serial_no)
}

/// Encodes the request that unplugs the target in slot `serial_no`.
pub fn encode_unplug_target(serial_no: u32) -> (r: Vec<u8>)
    ensures
        r@ == spec_unplug_target_bytes(serial_no),
        r@.len() == UNPLUG_TARGET_SIZE,
{
    let mut out: Vec<u8> = Vec::new();
    push_u32_le(&mut out, UNPLUG_TARGET_SIZE);
    push_u32_le(&mut out, serial_no);
    assert(out@ =~= spec_unplug_target_bytes(serial_no));
    out
}

/// Byte size of the plug-target request record.
pub const PLUGIN_TARGET_SIZE: u32 = 16;

/// The plug-target request record: size, slot, controller kind, then the
/// USB vendor and product identifiers.
pub open spec fn spec_plugin_target_bytes(
    serial_no: u32,
    kind: TargetType,
    vendor_id: u16,
    product_id: u16,
) -> Seq<u8> {
    spec_u32_le(PLUGIN_TARGET_SIZE) + spec_u32_le(serial_no) + spec_u32_le(
        spec_target_type_value(kind),
    ) + spec_u16_le(vendor_id) + spec_u16_le(product_id)
}

/// Encodes the request that plugs a target of the given kind and identifiers
/// into slot `serial_no`.
pub fn encode_plugin_target(
    serial_no: u32,
    kind: TargetType,
    vendor_id: u16,
    product_id: u16,
) -> (r: Vec<u8>)
    ensures
        r@ == spec_plugin_target_bytes(serial_no, kind, vendor_id, product_id),
        r@.len() == PLUGIN_TARGET_SIZE,
{
    let mut out: Vec<u8> = Vec::new();
    push_u32_le(&mut out, PLUGIN_TARGET_SIZE);
    push_u32_le(&mut out, serial_no);
    push_u32_le(&mut out, kind.value());
    push_u16_le(&mut out, vendor_id);
    push_u16_le(&mut out, product_id);
    assert(out@ =~= spec_plugin_target_bytes(serial_no, kind, vendor_id, product_id));
    out
}

/// Byte size of the get-user-index request and response record.
pub const GET_USER_INDEX_SIZE: u32 = 12;

/// The get-user-index request record: size, slot, then a zeroed index field
/// the driver fills in its response.
pub open spec fn spec_get_user_index_bytes(serial_no: u32) -> Seq<u8> {
    spec_u32_le(GET_USER_INDEX_SIZE) + spec_u32_le(serial_no) + spec_u32_le(0)
}

/// Encodes the request that asks the driver for the user index of the target
/// in slot `serial_no`.
pub fn encode_get_user_index(serial_no: u32) -> (r: Vec<u8>)
    ensures
        r@ == spec_get_user_index_bytes(serial_no),
        r@.len() == GET_USER_INDEX_SIZE,
{
    let mut out: Vec<u8> = Vec::new();
    push_u32_le(&mut out, GET_USER_INDEX_SIZE);
    push_u32_le(&mut out, serial_no);
    push_u32_le(&mut out, 0);
    assert(out@ =~= spec_get_user_index_bytes(serial_no));
    out
}

/// Reads the driver-reported user index out of a get-user-index response.
/// Returns `None` exactly when the buffer is not the fixed record size;
/// a short or long response is a transport fault, not a decode variant.
pub fn decode_user_index(buf: &Vec<u8>) -> (r: Option<u32>)
    ensures
        buf@.len() == GET_USER_INDEX_SIZE ==> r == Option::Some(
            spec_u32_from_le(buf@[8], buf@[9], buf@[10], buf@[11]),
        ),
        buf@.len() != GET_USER_INDEX_SIZE ==> r is None,
{
    if buf.len() != 12 {
        return None;
    }
    let b0 = buf[8];
    let b1 = buf[9];
    let b2 = buf[10];
    let b3 = buf[11];
    Some((b0 as u32) | ((b1 as u32) << 8) | ((b2 as u32) << 16) | ((b3 as u32) << 24))
}

/// Byte size of the wait-device-ready request record.
pub const WAIT_DEVICE_READY_SIZE: u32 = 8;

/// The wait-device-ready request record: size, then slot number.
pub open spec fn spec_wait_device_ready_bytes(serial_no: u32) -> Seq<u8> {
    spec_u32_le(WAIT_DEVICE_READY_SIZE) + spec_u32_le(serial_no)
}

/// Encodes the best-effort wait-device-ready request for slot `serial_no`.
/// The driver's answer to it is not trusted; readiness is inferred separately.
pub fn encode_wait_device_ready(serial_no: u32) -> (r: Vec<u8>)
    ensures
        r@ == spec_wait_device_ready_bytes(serial_no),
        r@.len() == WAIT_DEVICE_READY_SIZE,
{
    let mut out: Vec<u8> = Vec::new();
    push_u32_le(&mut out, WAIT_DEVICE_READY_SIZE);
    push_u32_le(&mut out, serial_no);
    assert(out@ =~= spec_wait_device_ready_bytes(serial_no));
    out
}

} // verus!
