//! Input reports, touchpad packing and feedback notifications for the second
//! controller kind: a D-pad nibble shared with the button mask, two-contact
//! touch data with 12-bit coordinate packing, and an extended report that
//! adds motion, battery and timestamp data.

use vstd::prelude::*;

verus! {

use crate::ioctl::{spec_i16_le, spec_u16_le, spec_u32_le, push_i16_le, push_u16_le, push_u32_le};

/// Button bit: right thumbstick click.
pub const DS4_BUTTON_THUMB_RIGHT: u16 = 0x8000;

/// Button bit: left thumbstick click.
pub const DS4_BUTTON_THUMB_LEFT: u16 = 0x4000;

/// Button bit: options.
pub const DS4_BUTTON_OPTIONS: u16 = 0x2000;

/// Button bit: share.
pub const DS4_BUTTON_SHARE: u16 = 0x1000;

/// Button bit: right trigger pressed past its threshold.
pub const DS4_BUTTON_TRIGGER_RIGHT: u16 = 0x0800;

/// Button bit: left trigger pressed past its threshold.
pub const DS4_BUTTON_TRIGGER_LEFT: u16 = 0x0400;

/// Button bit: right shoulder.
pub const DS4_BUTTON_SHOULDER_RIGHT: u16 = 0x0200;

/// Button bit: left shoulder.
pub const DS4_BUTTON_SHOULDER_LEFT: u16 = 0x0100;

/// Button bit: triangle.
pub const DS4_BUTTON_TRIANGLE: u16 = 0x0080;

/// Button bit: circle.
pub const DS4_BUTTON_CIRCLE: u16 = 0x0040;

/// Button bit: cross.
pub const DS4_BUTTON_CROSS: u16 = 0x0020;

/// Button bit: square.
pub const DS4_BUTTON_SQUARE: u16 = 0x0010;

/// Special button bit: the system button.
pub const DS4_SPECIAL_PS: u8 = 0x01;

/// Special button bit: touchpad click.
pub const DS4_SPECIAL_TOUCHPAD: u8 = 0x02;

/// The mask of the D-pad nibble inside the button field.
pub const DS4_DPAD_MASK: u16 = 0x000F;

/// The D-pad state: one of eight directions or neutral, encoded as a single
/// value in the low nibble of the button field, not as a bitmask.
#[derive(Debug, Clone, Copy, PartialEq, Eq, Structural)]
pub enum Ds4Dpad {
    North,
    NorthEast,
    East,
    SouthEast,
    South,
    SouthWest,
    West,
    NorthWest,
    Neutral,
}

/// The nibble value that stands for each D-pad state on the wire.
pub open spec fn spec_dpad_value(d: Ds4Dpad) -> u16 {
    match d {
        Ds4Dpad::North => 0,
        Ds4Dpad::NorthEast => 1,
        Ds4Dpad::East => 2,
        Ds4Dpad::SouthEast => 3,
        Ds4Dpad::South => 4,
        Ds4Dpad::SouthWest => 5,
        Ds4Dpad::West => 6,
        Ds4Dpad::NorthWest => 7,
        Ds4Dpad::Neutral => 8,
    }
}

impl Ds4Dpad {
    /// Returns the nibble value of this D-pad state.
    pub fn value(&self) -> (r: u16)
        ensures
            r == spec_dpad_value(*self),
            r <= 8,
    {
        match self {
            Ds4Dpad::North => 0,
            Ds4Dpad::NorthEast => 1,
            Ds4Dpad::East => 2,
            Ds4Dpad::SouthEast => 3,
            Ds4Dpad::South => 4,
            Ds4Dpad::SouthWest => 5,
            Ds4Dpad::West => 6,
            Ds4Dpad::NorthWest => 7,
            Ds4Dpad::Neutral => 8,
        }
    }
}

impl Default for Ds4Dpad {
    /// The D-pad rests in the neutral state.
    fn default() -> (r: Self)
        ensures
            r == Ds4Dpad::Neutral,
    {
        Ds4Dpad::Neutral
    }
}

/// The button field with its D-pad nibble replaced by `d`.
pub open spec fn spec_with_dpad(buttons: u16, d: Ds4Dpad) -> u16 {
    (buttons & !DS4_DPAD_MASK) | spec_dpad_value(d)
}

/// The standard input state of a virtual controller of the second kind.
#[derive(Debug, Clone, Copy, PartialEq, Eq, Structural)]
pub struct Ds4Report {
    /// Left thumbstick X-axis (0-255). 128 is center.
    pub thumb_lx: u8,
    /// Left thumbstick Y-axis (0-255). 128 is center.
    pub thumb_ly: u8,
    /// Right thumbstick X-axis (0-255). 128 is center.
    pub thumb_rx: u8,
    /// Right thumbstick Y-axis (0-255). 128 is center.
    pub thumb_ry: u8,
    /// Bitmask of the main digital buttons (`DS4_BUTTON_*`) in the high 12
    /// bits; the low 4 bits hold the D-pad state (see [`Ds4Report::set_dpad`]).
    pub buttons: u16,
    /// Bitmask of the special buttons (`DS4_SPECIAL_*`).
    pub special: u8,
    /// Left trigger value (0-255).
    pub trigger_l: u8,
    /// Right trigger value (0-255).
    pub trigger_r: u8,
}

impl Ds4Report {
    /// Sets the D-pad state: the low 4 bits of the button field become the
    /// direction value, every other bit keeps its value.
    pub fn set_dpad(&mut self, dpad: Ds4Dpad)
        ensures
            final(self).buttons == spec_with_dpad(old(self).buttons, dpad),
            final(self).thumb_lx == old(self).thumb_lx,
            final(self).thumb_ly == old(self).thumb_ly,
            final(self).thumb_rx == old(self).thumb_rx,
            final(self).thumb_ry == old(self).thumb_ry,
            final(self).special == old(self).special,
            final(self).trigger_l == old(self).trigger_l,
            final(self).trigger_r == old(self).trigger_r,
    {
        self.buttons = (self.buttons & !DS4_DPAD_MASK) | dpad.value();
    }
}

impl Default for Ds4Report {
    /// The neutral state: sticks centered at 128, no buttons, triggers
    /// released, D-pad neutral.
    fn default() -> (r: Self)
        ensures
            r.thumb_lx == 128u8,
            r.thumb_ly == 128u8,
            r.thumb_rx == 128u8,
            r.thumb_ry == 128u8,
            r.buttons == spec_dpad_value(Ds4Dpad::Neutral),
            r.special == 0u8,
            r.trigger_l == 0u8,
            r.trigger_r == 0u8,
    {
        let mut report = Ds4Report {
            thumb_lx: 128,
            thumb_ly: 128,
            thumb_rx: 128,
            thumb_ry: 128,
            buttons: 0,
            special: 0,
            trigger_l: 0,
            trigger_r: 0,
        };
        report.set_dpad(Ds4Dpad::Neutral);
        proof {
            assert((0u16 & !0x000Fu16) | 8u16 == 8u16) by (bit_vector);
        }
        report
    }
}

/// D-pad isolation: writing the D-pad nibble touches no bit outside the low
/// 4 bits and leaves exactly the direction value in them, and OR-ing any
/// button mask that is clear in the low 4 bits leaves the D-pad nibble alone.
pub proof fn lemma_dpad_bits_isolated(buttons: u16, d: Ds4Dpad, mask: u16)
    requires
        mask & DS4_DPAD_MASK == 0,
    ensures
        spec_with_dpad(buttons, d) & !DS4_DPAD_MASK == buttons & !DS4_DPAD_MASK,
        spec_with_dpad(buttons, d) & DS4_DPAD_MASK == spec_dpad_value(d),
        (buttons | mask) & DS4_DPAD_MASK == buttons & DS4_DPAD_MASK,
{
    let v = spec_dpad_value(d);
    assert(v <= 8);
    assert(((buttons & !0x000Fu16) | v) & !0x000Fu16 == buttons & !0x000Fu16) by (bit_vector)
        requires
            v <= 8u16,
    ;
    assert(((buttons & !0x000Fu16) | v) & 0x000Fu16 == v) by (bit_vector)
        requires
            v <= 8u16,
    ;
    assert((buttons | mask) & 0x000Fu16 == buttons & 0x000Fu16) by (bit_vector)
        requires
            mask & 0x000Fu16 == 0u16,
    ;
}

/// The X coordinate clamped to the touchpad's 0-1919 range.
pub open spec fn spec_clamp_x(x: u16) -> u16 {
    if x > 1919 {
        1919u16
    } else {
        x
    }
}

/// The Y coordinate clamped to the touchpad's 0-942 range.
pub open spec fn spec_clamp_y(y: u16) -> u16 {
    if y > 942 {
        942u16
    } else {
        y
    }
}

/// The 3-byte packing of an in-range coordinate pair: byte 0 is the low 8
/// bits of X, byte 1 holds the high 4 bits of X in its low nibble and the
/// low 4 bits of Y in its high nibble, byte 2 is the high 8 bits of Y.
pub open spec fn spec_packed_coords(x: u16, y: u16) -> Seq<u8> {
    seq![
        (x & 0xFF) as u8,
        (((x >> 8) & 0x0F) | ((y & 0x0F) << 4)) as u8,
        ((y >> 4) & 0xFF) as u8,
    ]
}

/// The X coordinate read back out of a 3-byte packing.
pub open spec fn spec_unpacked_x(b: Seq<u8>) -> u16
    recommends
        b.len() == 3,
{
    (b[0] as u16) | (((b[1] as u16) & 0x0F) << 8)
}

/// The Y coordinate read back out of a 3-byte packing.
pub open spec fn spec_unpacked_y(b: Seq<u8>) -> u16
    recommends
        b.len() == 3,
{
    (((b[1] as u16) & 0xF0) >> 4) | ((b[2] as u16) << 4)
}

/// Unpacking inverts packing on every in-range coordinate pair.
pub proof fn lemma_pack_unpack(x: u16, y: u16)
    requires
        x <= 1919,
        y <= 942,
    ensures
        spec_unpacked_x(spec_packed_coords(x, y)) == x,
        spec_unpacked_y(spec_packed_coords(x, y)) == y,
{
    let b0 = (x & 0xFF) as u8;
    let b1 = (((x >> 8) & 0x0F) | ((y & 0x0F) << 4)) as u8;
    let b2 = ((y >> 4) & 0xFF) as u8;
    assert(spec_packed_coords(x, y)[0] == b0);
    assert(spec_packed_coords(x, y)[1] == b1);
    assert(spec_packed_coords(x, y)[2] == b2);
    assert((b0 as u16) | (((b1 as u16) & 0x0F) << 8) == x) by (bit_vector)
        requires
            x <= 1919u16,
            y <= 942u16,
            b0 == (x & 0xFF) as u8,
            b1 == (((x >> 8) & 0x0F) | ((y & 0x0F) << 4)) as u8,
    ;
    assert((((b1 as u16) & 0xF0) >> 4) | ((b2 as u16) << 4) == y) by (bit_vector)
        requires
            x <= 1919u16,
            y <= 942u16,
            b1 == (((x >> 8) & 0x0F) | ((y & 0x0F) << 4)) as u8,
            b2 == ((y >> 4) & 0xFF) as u8,
    ;
}

/// Round-trip stability: for any coordinates, packing, unpacking and packing
/// again yields the first packing, and out-of-range values are clamped to
/// the edge of the touchpad, never wrapped.
pub proof fn lemma_pack_roundtrip(x: u16, y: u16)
    ensures
        spec_packed_coords(
            spec_clamp_x(spec_unpacked_x(spec_packed_coords(spec_clamp_x(x), spec_clamp_y(y)))),
            spec_clamp_y(spec_unpacked_y(spec_packed_coords(spec_clamp_x(x), spec_clamp_y(y)))),
        ) == spec_packed_coords(spec_clamp_x(x), spec_clamp_y(y)),
{
    let cx = spec_clamp_x(x);
    let cy = spec_clamp_y(y);
    lemma_pack_unpack(cx, cy);
    assert(spec_clamp_x(cx) == cx);
    assert(spec_clamp_y(cy) == cy);
}

/// One packet of touchpad data: a sequencing counter and the state of up to
/// two touch contacts, each a bit-packed state/id byte and 3 packed
/// coordinate bytes.
#[derive(Debug, Clone, Copy, PartialEq, Eq)]
pub struct Ds4Touch {
    /// A counter that increments with each new touch data packet.
    pub packet_counter: u8,
    /// Contact state and tracking id of the first touch point: the top bit
    /// is 0 while the finger is down and 1 once it is up, the low 7 bits
    /// are the tracking id of the gesture.
    pub is_up_tracking_num_1: u8,
    /// The packed coordinates of the first touch point.
    pub touch_data_1: [u8; 3],
    /// Contact state and tracking id of the second touch point, formatted
    /// like the first.
    pub is_up_tracking_num_2: u8,
    /// The packed coordinates of the second touch point.
    pub touch_data_2: [u8; 3],
}

/// The state/id byte of one touch contact: an active-low top bit and the
/// tracking id in the low 7 bits.
pub open spec fn spec_touch_state_byte(is_down: bool, tracking_num: u8) -> u8 {
    (if is_down {
        0u8
    } else {
        0x80u8
    }) | (tracking_num & 0x7F)
}

/// Touch-contact encoding: a finger that is down clears the top bit, one
/// that is up sets it, and the low 7 bits carry the tracking id exactly
/// for every id up to 127.
pub proof fn lemma_touch_state_byte(is_down: bool, tracking_num: u8)
    ensures
        (spec_touch_state_byte(is_down, tracking_num) & 0x80 == 0) <==> is_down,
        spec_touch_state_byte(is_down, tracking_num) & 0x7F == tracking_num & 0x7F,
        tracking_num <= 127 ==> spec_touch_state_byte(is_down, tracking_num) & 0x7F
            == tracking_num,
{
    let up: u8 = if is_down {
        0u8
    } else {
        0x80u8
    };
    assert((up | (tracking_num & 0x7F)) & 0x80 == up) by (bit_vector)
        requires
            up == 0u8 || up == 0x80u8,
    ;
    assert((up | (tracking_num & 0x7F)) & 0x7F == tracking_num & 0x7F) by (bit_vector)
        requires
            up == 0u8 || up == 0x80u8,
    ;
    assert(tracking_num <= 127 ==> tracking_num & 0x7Fu8 == tracking_num) by (bit_vector);
}

impl Ds4Touch {
    /// Packs a coordinate pair into the 3-byte wire format, clamping values
    /// beyond the 1920x943 touchpad to its edge.
    pub fn pack_coords(buf: &mut [u8; 3], x: u16, y: u16)
        ensures
            final(buf)@ == spec_packed_coords(spec_clamp_x(x), spec_clamp_y(y)),
    {
        let x = if x > 1919 {
            1919
        } else {
            x
        };
        let y = if y > 942 {
            942
        } else {
            y
        };
        buf[0] = (x & 0xFF) as u8;
        buf[1] = (((x >> 8) & 0x0F) | ((y & 0x0F) << 4)) as u8;
        buf[2] = ((y >> 4) & 0xFF) as u8;
        assert(buf@ =~= spec_packed_coords(x, y));
    }

    /// Unpacks a coordinate pair from the 3-byte wire format.
    pub fn unpack_coords(buf: &[u8; 3]) -> (r: (u16, u16))
        ensures
            r.0 == spec_unpacked_x(buf@),
            r.1 == spec_unpacked_y(buf@),
    {
        let x = (buf[0] as u16) | (((buf[1] as u16) & 0x0F) << 8);
        let y = (((buf[1] as u16) & 0xF0) >> 4) | ((buf[2] as u16) << 4);
        (x, y)
    }

    /// Sets the first touch contact: whether the finger is down, its
    /// tracking id (0-127), and its clamped coordinates.
    pub fn set_touch_1(&mut self, is_down: bool, tracking_num: u8, x: u16, y: u16)
        ensures
            final(self).is_up_tracking_num_1 == spec_touch_state_byte(is_down, tracking_num),
            final(self).touch_data_1@ == spec_packed_coords(spec_clamp_x(x), spec_clamp_y(y)),
            final(self).packet_counter == old(self).packet_counter,
            final(self).is_up_tracking_num_2 == old(self).is_up_tracking_num_2,
            final(self).touch_data_2 == old(self).touch_data_2,
    {
        let up_bit: u8 = if is_down {
            0
        } else {
            0x80
        };
        self.is_up_tracking_num_1 = up_bit | (tracking_num & 0x7F);
        Self::pack_coords(&mut self.touch_data_1, x, y);
    }

    /// Sets the second touch contact: whether the finger is down, its
    /// tracking id (0-127), and its clamped coordinates.
    pub fn set_touch_2(&mut self, is_down: bool, tracking_num: u8, x: u16, y: u16)
        ensures
            final(self).is_up_tracking_num_2 == spec_touch_state_byte(is_down, tracking_num),
            final(self).touch_data_2@ == spec_packed_coords(spec_clamp_x(x), spec_clamp_y(y)),
            final(self).packet_counter == old(self).packet_counter,
            final(self).is_up_tracking_num_1 == old(self).is_up_tracking_num_1,
            final(self).touch_data_1 == old(self).touch_data_1,
    {
        let up_bit: u8 = if is_down {
            0
        } else {
            0x80
        };
        self.is_up_tracking_num_2 = up_bit | (tracking_num & 0x7F);
        Self::pack_coords(&mut self.touch_data_2, x, y);
    }

    /// Returns the packet counter of this touch packet.
    pub fn get_packet_counter(&self) -> (r: u8)
        ensures
            r == self.packet_counter,
    {
        self.packet_counter
    }

    /// Returns whether the first touch point is active (finger down): the
    /// top bit of its state byte is clear.
    pub fn get_is_down_1(&self) -> (r: bool)
        ensures
            r == ((self.is_up_tracking_num_1 & 0x80) == 0),
    {
        (self.is_up_tracking_num_1 & 0x80) == 0
    }

    /// Returns the tracking id of the first touch point (0-127).
    pub fn get_tracking_num_1(&self) -> (r: u8)
        ensures
            r == self.is_up_tracking_num_1 & 0x7F,
    {
        self.is_up_tracking_num_1 & 0x7F
    }

    /// Returns the coordinates of the first touch point.
    pub fn get_coords_1(&self) -> (r: (u16, u16))
        ensures
            r.0 == spec_unpacked_x(self.touch_data_1@),
            r.1 == spec_unpacked_y(self.touch_data_1@),
    {
        Self::unpack_coords(&self.touch_data_1)
    }

    /// Returns whether the second touch point is active (finger down).
    pub fn get_is_down_2(&self) -> (r: bool)
        ensures
            r == ((self.is_up_tracking_num_2 & 0x80) == 0),
    {
        (self.is_up_tracking_num_2 & 0x80) == 0
    }

    /// Returns the tracking id of the second touch point (0-127).
    pub fn get_tracking_num_2(&self) -> (r: u8)
        ensures
            r == self.is_up_tracking_num_2 & 0x7F,
    {
        self.is_up_tracking_num_2 & 0x7F
    }

    /// Returns the coordinates of the second touch point.
    pub fn get_coords_2(&self) -> (r: (u16, u16))
        ensures
            r.0 == spec_unpacked_x(self.touch_data_2@),
            r.1 == spec_unpacked_y(self.touch_data_2@),
    {
        Self::unpack_coords(&self.touch_data_2)
    }
}

impl Default for Ds4Touch {
    /// An idle touch packet: counter zero and both contacts zeroed.
    fn default() -> (r: Self)
        ensures
            r.packet_counter == 0u8,
            r.is_up_tracking_num_1 == 0u8,
            r.touch_data_1@ == seq![0u8, 0u8, 0u8],
            r.is_up_tracking_num_2 == 0u8,
            r.touch_data_2@ == seq![0u8, 0u8, 0u8],
    {
        let r = Ds4Touch {
            packet_counter: 0,
            is_up_tracking_num_1: 0,
            touch_data_1: [0, 0, 0],
            is_up_tracking_num_2: 0,
            touch_data_2: [0, 0, 0],
        };
        assert(r.touch_data_1@ =~= seq![0u8, 0u8, 0u8]);
        assert(r.touch_data_2@ =~= seq![0u8, 0u8, 0u8]);
        r
    }
}

/// The 9 wire bytes of one touch packet.
pub open spec fn spec_ds4_touch_bytes(t: Ds4Touch) -> Seq<u8> {
    seq![t.packet_counter, t.is_up_tracking_num_1] + t.touch_data_1@ + seq![
        t.is_up_tracking_num_2,
    ] + t.touch_data_2@
}

/// Appends the 9 wire bytes of one touch packet to `out`.
fn push_touch_bytes(out: &mut Vec<u8>, t: &Ds4Touch)
    ensures
        final(out)@ == old(out)@ + spec_ds4_touch_bytes(*t),
{
    out.push(t.packet_counter);
    out.push(t.is_up_tracking_num_1);
    out.push(t.touch_data_1[0]);
    out.push(t.touch_data_1[1]);
    out.push(t.touch_data_1[2]);
    out.push(t.is_up_tracking_num_2);
    out.push(t.touch_data_2[0]);
    out.push(t.touch_data_2[1]);
    out.push(t.touch_data_2[2]);
    assert(out@ =~= old(out)@ + spec_ds4_touch_bytes(*t));
}

/// The extended input state of a virtual controller of the second kind:
/// the standard fields plus timestamp, battery, motion and touch data.
/// Its wire form is exactly 60 bytes.
#[derive(Debug, Clone, Copy, PartialEq, Eq)]
pub struct Ds4ReportExData {
    /// Left thumbstick X-axis (0-255). 128 is center.
    pub thumb_lx: u8,
    /// Left thumbstick Y-axis (0-255). 128 is center.
    pub thumb_ly: u8,
    /// Right thumbstick X-axis (0-255). 128 is center.
    pub thumb_rx: u8,
    /// Right thumbstick Y-axis (0-255). 128 is center.
    pub thumb_ry: u8,
    /// Button mask and D-pad nibble, laid out as in [`Ds4Report`].
    pub buttons: u16,
    /// Bitmask of the special buttons (`DS4_SPECIAL_*`).
    pub special: u8,
    /// Left trigger value (0-255).
    pub trigger_l: u8,
    /// Right trigger value (0-255).
    pub trigger_r: u8,
    /// Report timestamp.
    pub timestamp: u16,
    /// Battery level.
    pub battery_lvl: u8,
    /// Gyroscope X-axis.
    pub gyro_x: i16,
    /// Gyroscope Y-axis.
    pub gyro_y: i16,
    /// Gyroscope Z-axis.
    pub gyro_z: i16,
    /// Accelerometer X-axis.
    pub accel_x: i16,
    /// Accelerometer Y-axis.
    pub accel_y: i16,
    /// Accelerometer Z-axis.
    pub accel_z: i16,
    /// Reserved bytes whose meaning the driver does not document.
    pub unknown1: [u8; 5],
    /// Battery level in the special charge states.
    pub battery_lvl_special: u8,
    /// Reserved bytes whose meaning the driver does not document.
    pub unknown2: [u8; 2],
    /// How many touch packets this report carries.
    pub touch_packets_n: u8,
    /// The current touch packet.
    pub current_touch: Ds4Touch,
    /// The two previous touch packets.
    pub previous_touch: [Ds4Touch; 2],
}

impl Ds4ReportExData {
    /// Sets the D-pad state on the extended report: the low 4 bits of the
    /// button field become the direction value, every other bit and every
    /// other field keeps its value.
    pub fn set_dpad(&mut self, dpad: Ds4Dpad)
        ensures
            *final(self) == (Ds4ReportExData {
                buttons: spec_with_dpad(old(self).buttons, dpad),
                ..*old(self)
            }),
    {
        self.buttons = (self.buttons & !DS4_DPAD_MASK) | dpad.value();
    }

    /// Copies the standard-report fields out of the extended report.
    pub fn as_report(&self) -> (r: Ds4Report)
        ensures
            r.thumb_lx == self.thumb_lx,
            r.thumb_ly == self.thumb_ly,
            r.thumb_rx == self.thumb_rx,
            r.thumb_ry == self.thumb_ry,
            r.buttons == self.buttons,
            r.special == self.special,
            r.trigger_l == self.trigger_l,
            r.trigger_r == self.trigger_r,
    {
        Ds4Report {
            thumb_lx: self.thumb_lx,
            thumb_ly: self.thumb_ly,
            thumb_rx: self.thumb_rx,
            thumb_ry: self.thumb_ry,
            buttons: self.buttons,
            special: self.special,
            trigger_l: self.trigger_l,
            trigger_r: self.trigger_r,
        }
    }
}

impl Default for Ds4ReportExData {
    /// The neutral extended state: sticks centered, D-pad neutral, and all
    /// motion, battery and touch data zeroed.
    fn default() -> (r: Self)
        ensures
            r.thumb_lx == 128u8,
            r.thumb_ly == 128u8,
            r.thumb_rx == 128u8,
            r.thumb_ry == 128u8,
            r.buttons == spec_dpad_value(Ds4Dpad::Neutral),
            r.special == 0u8,
            r.trigger_l == 0u8,
            r.trigger_r == 0u8,
            r.timestamp == 0u16,
            r.battery_lvl == 0u8,
            r.gyro_x == 0i16 && r.gyro_y == 0i16 && r.gyro_z == 0i16,
            r.accel_x == 0i16 && r.accel_y == 0i16 && r.accel_z == 0i16,
            r.touch_packets_n == 0u8,
    {
        let base = Ds4Report::default();
        Ds4ReportExData {
            thumb_lx: base.thumb_lx,
            thumb_ly: base.thumb_ly,
            thumb_rx: base.thumb_rx,
            thumb_ry: base.thumb_ry,
            buttons: base.buttons,
            special: base.special,
            trigger_l: base.trigger_l,
            trigger_r: base.trigger_r,
            timestamp: 0,
            battery_lvl: 0,
            gyro_x: 0,
            gyro_y: 0,
            gyro_z: 0,
            accel_x: 0,
            accel_y: 0,
            accel_z: 0,
            unknown1: [0, 0, 0, 0, 0],
            battery_lvl_special: 0,
            unknown2: [0, 0],
            touch_packets_n: 0,
            current_touch: Ds4Touch::default(),
            previous_touch: [Ds4Touch::default(), Ds4Touch::default()],
        }
    }
}

/// The 60 logical wire bytes of an extended report.
pub open spec fn spec_ds4_report_ex_bytes(r: Ds4ReportExData) -> Seq<u8> {
    seq![r.thumb_lx, r.thumb_ly, r.thumb_rx, r.thumb_ry] + spec_u16_le(r.buttons) + seq![
        r.special,
        r.trigger_l,
        r.trigger_r,
    ] + spec_u16_le(r.timestamp) + seq![r.battery_lvl] + spec_i16_le(r.gyro_x) + spec_i16_le(
        r.gyro_y,
    ) + spec_i16_le(r.gyro_z) + spec_i16_le(r.accel_x) + spec_i16_le(r.accel_y) + spec_i16_le(
        r.accel_z,
    ) + r.unknown1@ + seq![r.battery_lvl_special] + r.unknown2@ + seq![r.touch_packets_n]
        + spec_ds4_touch_bytes(r.current_touch) + spec_ds4_touch_bytes(r.previous_touch[0])
        + spec_ds4_touch_bytes(r.previous_touch[1])
}

/// The 10 wire bytes of a standard report: the 9 data bytes and one byte of
/// record padding.
pub open spec fn spec_ds4_report_bytes(r: Ds4Report) -> Seq<u8> {
    seq![r.thumb_lx, r.thumb_ly, r.thumb_rx, r.thumb_ry] + spec_u16_le(r.buttons) + seq![
        r.special,
        r.trigger_l,
        r.trigger_r,
        0u8,
    ]
}

/// Byte size of the submit-report request record for a standard report.
pub const DS4_SUBMIT_REPORT_SIZE: u32 = 18;

/// The submit-report request record for a standard report: size, slot, then
/// the 10 report bytes. The driver tells the two report shapes apart by the
/// size field alone; both travel under the same control code.
pub open spec fn spec_ds4_submit_report_bytes(serial_no: u32, r: Ds4Report) -> Seq<u8> {
    spec_u32_le(DS4_SUBMIT_REPORT_SIZE) + spec_u32_le(serial_no) + spec_ds4_report_bytes(r)
}

/// Encodes the request that submits `report` as the standard input state of
/// the target in slot `serial_no`.
pub fn encode_ds4_submit_report(serial_no: u32, report: &Ds4Report) -> (r: Vec<u8>)
    ensures
        r@ == spec_ds4_submit_report_bytes(serial_no, *report),
        r@.len() == DS4_SUBMIT_REPORT_SIZE,
{
    let mut out: Vec<u8> = Vec::new();
    push_u32_le(&mut out, DS4_SUBMIT_REPORT_SIZE);
    push_u32_le(&mut out, serial_no);
    out.push(report.thumb_lx);
    out.push(report.thumb_ly);
    out.push(report.thumb_rx);
    out.push(report.thumb_ry);
    push_u16_le(&mut out, report.buttons);
    out.push(report.special);
    out.push(report.trigger_l);
    out.push(report.trigger_r);
    out.push(0);
    assert(out@ =~= spec_ds4_submit_report_bytes(serial_no, *report));
    out
}

/// Byte size of the submit-report request record for an extended report:
/// the 8 header bytes and the 63-byte report union (60 logical bytes and
/// 3 bytes of padding). The total of 63 report bytes is a hard driver
/// compatibility constraint.
pub const DS4_SUBMIT_REPORT_EX_SIZE: u32 = 71;

/// The submit-report request record for an extended report: size, slot, the
/// 60 logical report bytes, then 3 bytes of union padding.
pub open spec fn spec_ds4_submit_report_ex_bytes(serial_no: u32, r: Ds4ReportExData) -> Seq<u8> {
    spec_u32_le(DS4_SUBMIT_REPORT_EX_SIZE) + spec_u32_le(serial_no) + spec_ds4_report_ex_bytes(r)
        + seq![0u8, 0u8, 0u8]
}

/// Encodes the request that submits `report` as the extended input state of
/// the target in slot `serial_no`.
pub fn encode_ds4_submit_report_ex(serial_no: u32, report: &Ds4ReportExData) -> (r: Vec<u8>)
    ensures
        r@ == spec_ds4_submit_report_ex_bytes(serial_no, *report),
        r@.len() == DS4_SUBMIT_REPORT_EX_SIZE,
{
    let mut out: Vec<u8> = Vec::new();
    push_u32_le(&mut out, DS4_SUBMIT_REPORT_EX_SIZE);
    push_u32_le(&mut out, serial_no);
    out.push(report.thumb_lx);
    out.push(report.thumb_ly);
    out.push(report.thumb_rx);
    out.push(report.thumb_ry);
    push_u16_le(&mut out, report.buttons);
    out.push(report.special);
    out.push(report.trigger_l);
    out.push(report.trigger_r);
    push_u16_le(&mut out, report.timestamp);
    out.push(report.battery_lvl);
    push_i16_le(&mut out, report.gyro_x);
    push_i16_le(&mut out, report.gyro_y);
    push_i16_le(&mut out, report.gyro_z);
    push_i16_le(&mut out, report.accel_x);
    push_i16_le(&mut out, report.accel_y);
    push_i16_le(&mut out, report.accel_z);
    out.push(report.unknown1[0]);
    out.push(report.unknown1[1]);
    out.push(report.unknown1[2]);
    out.push(report.unknown1[3]);
    out.push(report.unknown1[4]);
    out.push(report.battery_lvl_special);
    out.push(report.unknown2[0]);
    out.push(report.unknown2[1]);
    out.push(report.touch_packets_n);
    push_touch_bytes(&mut out, &report.current_touch);
    let prev0 = report.previous_touch[0];
    let prev1 = report.previous_touch[1];
    push_touch_bytes(&mut out, &prev0);
    push_touch_bytes(&mut out, &prev1);
    out.push(0);
    out.push(0);
    out.push(0);
    assert(out@ =~= spec_ds4_submit_report_ex_bytes(serial_no, *report));
    out
}

/// An RGB color for the lightbar of a controller of the second kind, as the
/// host orders it in a feedback notification.
#[derive(Debug, Clone, Copy, PartialEq, Eq, Structural)]
pub struct Ds4LightbarColor {
    /// The red component of the color (0-255).
    pub red: u8,
    /// The green component of the color (0-255).
    pub green: u8,
    /// The blue component of the color (0-255).
    pub blue: u8,
}

impl Ds4LightbarColor {
    /// Builds a color from its three components.
    pub fn new(r: u8, g: u8, b: u8) -> (c: Self)
        ensures
            c.red == r,
            c.green == g,
            c.blue == b,
    {
        Ds4LightbarColor { red: r, green: g, blue: b }
    }
}

impl Default for Ds4LightbarColor {
    /// The lightbar is dark by default.
    fn default() -> (c: Self)
        ensures
            c.red == 0u8,
            c.green == 0u8,
            c.blue == 0u8,
    {
        Ds4LightbarColor { red: 0, green: 0, blue: 0 }
    }
}

/// Host feedback for a target of the second kind: two rumble motors and a
/// lightbar color.
#[derive(Debug, Clone, Copy, PartialEq, Eq, Structural)]
pub struct Ds4Notification {
    /// Rumble strength for the large motor (0-255).
    pub large_motor: u8,
    /// Rumble strength for the small motor (0-255).
    pub small_motor: u8,
    /// The color ordered for the controller's lightbar.
    pub lightbar: Ds4LightbarColor,
}

/// One raw 64-byte output packet from the bus for a target of the second
/// kind, for callers that parse the host's output report themselves.
#[derive(Debug, Clone, Copy, PartialEq, Eq)]
pub struct Ds4OutputBuffer {
    /// The raw output report bytes.
    pub buf: [u8; 64],
}

} // verus!
