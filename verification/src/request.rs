//! The fields of a SETUP packet that the keyboard reads, and the request
//! codes of the HID class.

use vstd::prelude::*;

verus! {

/// The direction of the data stage of a control transfer.
#[derive(Clone, Copy, Debug, PartialEq, Eq, Structural)]
pub enum Dir {
    HostToDevice,
    DeviceToHost,
}

/// The code of the standard request GET_DESCRIPTOR.
pub const GET_DESCRIPTOR: u8 = 6;

/// What the handlers read of a SETUP packet.
#[derive(Clone, Copy, Debug, PartialEq, Eq, Structural)]
pub struct SetupPacket {
    /// The direction of the data stage.
    pub direction: Dir,
    /// The request code, as the host sent it.
    pub request: u8,
    pub value: u16,
    /// How many bytes the host asks for, or sends.
    pub length: u16,
}

/// A request of the HID class.
#[derive(Clone, Copy, Debug, PartialEq, Eq, Structural)]
pub enum HidRequestCode {
    GetReport,
    GetIdle,
    GetProtocol,
    SetReport,
    SetIdle,
    SetProtocol,
}

impl HidRequestCode {
    /// The number that stands for the request on the wire.
    pub open spec fn code(self) -> u8 {
        match self {
            HidRequestCode::GetReport => 1,
            HidRequestCode::GetIdle => 2,
            HidRequestCode::GetProtocol => 3,
            HidRequestCode::SetReport => 9,
            HidRequestCode::SetIdle => 0xa,
            HidRequestCode::SetProtocol => 0xb,
        }
    }

    /// The request that `n` stands for, if it stands for one.
    pub open spec fn parse(n: int) -> Option<HidRequestCode> {
        if n == 1 {
            Some(HidRequestCode::GetReport)
        } else if n == 2 {
            Some(HidRequestCode::GetIdle)
        } else if n == 3 {
            Some(HidRequestCode::GetProtocol)
        } else if n == 9 {
            Some(HidRequestCode::SetReport)
        } else if n == 0xa {
            Some(HidRequestCode::SetIdle)
        } else if n == 0xb {
            Some(HidRequestCode::SetProtocol)
        } else {
            None
        }
    }

    /// Reads a request from a number that the host sent; `None` for a number
    /// that stands for no request.
    pub fn from_u8(n: u8) -> (r: Option<HidRequestCode>)
        ensures
            r == HidRequestCode::parse(n as int),
            r matches Some(found) ==> found.code() == n,
            r is None <==> !(1 <= n <= 3 || 9 <= n <= 0xb),
    {
        if n == 1 {
            Some(HidRequestCode::GetReport)
        } else if n == 2 {
            Some(HidRequestCode::GetIdle)
        } else if n == 3 {
            Some(HidRequestCode::GetProtocol)
        } else if n == 9 {
            Some(HidRequestCode::SetReport)
        } else if n == 0xa {
            Some(HidRequestCode::SetIdle)
        } else if n == 0xb {
            Some(HidRequestCode::SetProtocol)
        } else {
            None
        }
    }
}

} // verus!
