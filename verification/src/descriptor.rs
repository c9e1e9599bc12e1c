//! The descriptors that the keyboard advertises to the host: the HID class
//! descriptor, with its wire layout, and the HID report descriptor.

use vstd::prelude::*;

verus! {

/// The type of a descriptor of the HID class.
#[derive(Clone, Copy, Debug, PartialEq, Eq, Structural)]
pub enum HidClassDescriptorType {
    Hid,
    Report,
    Physical,
}

impl HidClassDescriptorType {
    /// The number that stands for the type on the wire.
    pub open spec fn code(self) -> u8 {
        match self {
            HidClassDescriptorType::Hid => 0x21,
            HidClassDescriptorType::Report => 0x22,
            HidClassDescriptorType::Physical => 0x33,
        }
    }

    /// The type that `n` stands for, if it stands for one.
    pub open spec fn parse(n: int) -> Option<HidClassDescriptorType> {
        if n == 0x21 {
            Some(HidClassDescriptorType::Hid)
        } else if n == 0x22 {
            Some(HidClassDescriptorType::Report)
        } else if n == 0x33 {
            Some(HidClassDescriptorType::Physical)
        } else {
            None
        }
    }

    /// The number that stands for the type on the wire.
    pub fn to_u8(self) -> (n: u8)
        ensures
            n == self.code(),
            HidClassDescriptorType::parse(n as int) == Some(self),
    {
        match self {
            HidClassDescriptorType::Hid => 0x21,
            HidClassDescriptorType::Report => 0x22,
            HidClassDescriptorType::Physical => 0x33,
        }
    }

    /// Reads a type from a number that the host sent; `None` for a number
    /// that stands for no type.
    pub fn from_u16(n: u16) -> (t: Option<HidClassDescriptorType>)
        ensures
            t == HidClassDescriptorType::parse(n as int),
            t matches Some(found) ==> found.code() == n,
            t is None <==> n != 0x21 && n != 0x22 && n != 0x33,
    {
        if n == 0x21 {
            Some(HidClassDescriptorType::Hid)
        } else if n == 0x22 {
            Some(HidClassDescriptorType::Report)
        } else if n == 0x33 {
            Some(HidClassDescriptorType::Physical)
        } else {
            None
        }
    }
}

/// The length in bytes of the HID class descriptor on the wire.
pub const HID_DESCRIPTOR_LENGTH: usize = 9;

/// The HID class descriptor.
#[derive(Clone, Copy, Debug, PartialEq, Eq, Structural)]
pub struct HidDescriptor {
    /// The length of the descriptor on the wire.
    pub length: u8,
    pub type_: HidClassDescriptorType,
    /// The version of HID that the device follows, in binary-coded decimal.
    pub hid_version: u16,
    pub country_code: u8,
    /// How many class descriptors follow.
    pub num_descriptors: u8,
    /// The type of the class descriptor that follows.
    pub descriptor_type: u8,
    /// The length of the class descriptor that follows.
    pub descriptor_length: u16,
}

/// The low byte of `n`.
pub open spec fn low_byte(n: u16) -> u8 {
    (n % 256) as u8
}

/// The high byte of `n`.
pub open spec fn high_byte(n: u16) -> u8 {
    (n / 256) as u8
}

impl HidDescriptor {
    /// The descriptor as it goes over the wire: nine bytes without padding,
    /// the two 16-bit fields with their low byte first.
    pub open spec fn wire(self) -> Seq<u8> {
        seq![
            self.length,
            self.type_.code(),
            low_byte(self.hid_version),
            high_byte(self.hid_version),
            self.country_code,
            self.num_descriptors,
            self.descriptor_type,
            low_byte(self.descriptor_length),
            high_byte(self.descriptor_length),
        ]
    }

    /// Serialises the descriptor into the bytes that go over the wire.
    pub fn to_bytes(&self) -> (bytes: [u8; HID_DESCRIPTOR_LENGTH])
        ensures
            bytes@ == self.wire(),
    {
        let version = self.hid_version;
        let following = self.descriptor_length;
        assert((version & 0xff) == version % 256 && (version >> 8) == version / 256) by (bit_vector);
        assert((following & 0xff) == following % 256 && (following >> 8) == following / 256)
            by (bit_vector);
        let bytes: [u8; HID_DESCRIPTOR_LENGTH] = [
            self.length,
            self.type_.to_u8(),
            (version & 0xff) as u8,
            (version >> 8) as u8,
            self.country_code,
            self.num_descriptors,
            self.descriptor_type,
            (following & 0xff) as u8,
            (following >> 8) as u8,
        ];
        bytes
    }
}

impl Default for HidDescriptor {
    /// A descriptor of nine bytes and type `Hid` that announces one class
    /// descriptor; every other field is zero.
    fn default() -> (d: HidDescriptor)
        ensures
            d == (HidDescriptor {
                length: 9,
                type_: HidClassDescriptorType::Hid,
                hid_version: 0,
                country_code: 0,
                num_descriptors: 1,
                descriptor_type: 0,
                descriptor_length: 0,
            }),
    {
        HidDescriptor {
            length: 9,
            type_: HidClassDescriptorType::Hid,
            hid_version: 0,
            country_code: 0,
            num_descriptors: 1,
            descriptor_type: 0,
            descriptor_length: 0,
        }
    }
}

/// The length in bytes of the HID report descriptor.
pub const REPORT_DESCRIPTOR_LENGTH: usize = 62;

/// The HID report descriptor of the keyboard. It describes an input report
/// of eight bytes (one byte of modifier keys, one reserved byte, six
/// keycodes) and an output report for the indicator lights.
pub const REPORT_DESCRIPTOR: [u8; REPORT_DESCRIPTOR_LENGTH] = [
    0x05, 0x01, 0x09, 0x06, 0xa1, 0x01, 0x05, 0x07, 0x19, 0xe0, 0x29, 0xe7, 0x15, 0x00, 0x25, 0x01,
    0x75, 0x01, 0x95, 0x08, 0x81, 0x02, 0x95, 0x01, 0x75, 0x08, 0x81, 0x01, 0x95, 0x03, 0x75, 0x01,
    0x05, 0x08, 0x19, 0x01, 0x29, 0x03, 0x91, 0x02, 0x95, 0x05, 0x75, 0x01, 0x91, 0x01, 0x95, 0x06,
    0x75, 0x08, 0x26, 0xff, 0x00, 0x05, 0x07, 0x19, 0x00, 0x29, 0x91, 0x81, 0x00, 0xc0,
];

} // verus!
