//! Target metadata: the two supported controller kinds, their default USB
//! identifiers, and the value record the registry keeps per plugged device.

use vstd::prelude::*;

verus! {

/// Marker for a virtual controller of the first kind (the pad with digital
/// buttons, two triggers and four signed thumbstick axes).
#[derive(Debug, Clone, Copy, PartialEq, Eq, Structural)]
pub struct Xbox360;

/// Marker for a virtual controller of the second kind (the pad with a D-pad
/// nibble, touchpad and motion data in its extended report).
#[derive(Debug, Clone, Copy, PartialEq, Eq, Structural)]
pub struct DualShock4;

/// The controller kind of one target, as the plug request names it.
#[derive(Debug, Clone, Copy, PartialEq, Eq, Structural)]
pub enum TargetType {
    Xbox360,
    DualShock4,
}

/// The wire value that stands for each controller kind in the plug request.
pub open spec fn spec_target_type_value(kind: TargetType) -> u32 {
    match kind {
        TargetType::Xbox360 => 0,
        TargetType::DualShock4 => 2,
    }
}

impl TargetType {
    /// Returns the wire value of this kind for the plug request.
    pub fn value(&self) -> (r: u32)
        ensures
            r == spec_target_type_value(*self),
    {
        match self {
            TargetType::Xbox360 => 0,
            TargetType::DualShock4 => 2,
        }
    }

    /// Returns the default `(vendor_id, product_id)` pair of this kind, used
    /// when the caller sets no identifiers of their own.
    pub fn get_identifiers(&self) -> (r: (u16, u16))
        ensures
            r == spec_default_identifiers(*self),
    {
        match self {
            TargetType::Xbox360 => (0x045E, 0x028E),
            TargetType::DualShock4 => (0x054C, 0x05C4),
        }
    }
}

/// The default USB vendor and product identifiers of each controller kind.
pub open spec fn spec_default_identifiers(kind: TargetType) -> (u16, u16) {
    match kind {
        TargetType::Xbox360 => (0x045E, 0x028E),
        TargetType::DualShock4 => (0x054C, 0x05C4),
    }
}

/// One plugged (or about to be plugged) virtual device: its kind, the slot
/// the bus assigned it (0 until assigned), and its USB identifiers.
#[derive(Debug, Clone, Copy, PartialEq, Eq, Structural)]
pub struct Target {
    pub kind: TargetType,
    pub serial_no: u32,
    pub vendor_id: u16,
    pub product_id: u16,
}

/// Builds the target record for a plug attempt: explicit identifiers win,
/// absent ones fall back to the defaults of the controller kind. The slot
/// number starts at 0 and is assigned by the registry.
pub fn make_target(kind: TargetType, vid: Option<u16>, pid: Option<u16>) -> (t: Target)
    ensures
        t.kind == kind,
        t.serial_no == 0u32,
        t.vendor_id == (match vid {
            Option::Some(v) => v,
            Option::None => spec_default_identifiers(kind).0,
        }),
        t.product_id == (match pid {
            Option::Some(p) => p,
            Option::None => spec_default_identifiers(kind).1,
        }),
{
    let (default_vid, default_pid) = kind.get_identifiers();
    Target {
        kind,
        serial_no: 0,
        vendor_id: match vid {
            Option::Some(v) => v,
            Option::None => default_vid,
        },
        product_id: match pid {
            Option::Some(p) => p,
            Option::None => default_pid,
        },
    }
}

} // verus!
