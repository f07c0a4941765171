use vstd::prelude::*;

verus! {

/// Why a sequence of bytes could not be turned into a protocol value, or a
/// value into bytes.
#[derive(Debug, Clone, Copy, PartialEq, Eq, Structural)]
pub enum CodecError {
    /// The input ends before the layout that was asked for.
    Truncated,
    /// A token below the request window.
    InvalidToken(u16),
    /// A valid token where a broadcast token was expected.
    UnexpectedToken(u16),
    /// A broadcast type byte outside `Log`, `SecureStatus`, `Keyboard`, `User`.
    UnknownBroadcastType(u8),
    /// A user broadcast discriminant outside the six known variants.
    UnknownUserBroadcast(u8),
    /// A secure status byte outside `Locked`, `Unlocking`, `Unlocked`.
    UnknownSecureStatus(u8),
    /// The payload length does not match the layout of the selected type.
    LengthMismatch,
    /// A frame whose route and payload do not fit in the one-byte length field.
    FrameTooLong,
    /// The route of a frame is not the route of the expected request type.
    RouteMismatch,
    /// Text that is not valid UTF-8.
    InvalidUtf8,
}

/// The errors of the protocol engine.
#[derive(Debug, Clone, PartialEq, Eq)]
pub enum XapError {
    /// Bit marshalling failed.
    BitHandling(CodecError),
    /// XAP communication failed; the text says how.
    Protocol(String),
    /// A privileged request was attempted on a device that is not unlocked.
    SecureLocked,
    /// The request timed out or was refused by the device.
    RequestFailed,
    /// A query was issued while another one is outstanding on the same device.
    Busy,
    /// No device of this id is registered.
    UnknownDevice(u128),
    /// A device with this transport path or id is already registered.
    DuplicateDevice,
    /// Reading from or writing to the transport failed.
    IO(String),
    /// A JSON document could not be read.
    JSONError(String),
    /// An HJSON document could not be read.
    HJSONError(String),
}

/// The human readable description of an error.
pub open spec fn message_of(e: XapError) -> Seq<char> {
    match e {
        XapError::BitHandling(_) => "bit marshalling failed"@,
        XapError::Protocol(m) => m@,
        XapError::SecureLocked => "device is locked"@,
        XapError::RequestFailed => "request failed"@,
        XapError::Busy => "another request is outstanding"@,
        XapError::UnknownDevice(_) => "unknown device"@,
        XapError::DuplicateDevice => "device already registered"@,
        XapError::IO(m) => m@,
        XapError::JSONError(m) => m@,
        XapError::HJSONError(m) => m@,
    }
}

impl XapError {
    /// Human readable description of the error.
    pub fn message(&self) -> (r: String)
        ensures
            r@ == message_of(*self),
    {
        match self {
            XapError::BitHandling(_) => String::from_str("bit marshalling failed"),
            XapError::Protocol(m) => m.clone(),
            XapError::SecureLocked => String::from_str("device is locked"),
            XapError::RequestFailed => String::from_str("request failed"),
            XapError::Busy => String::from_str("another request is outstanding"),
            XapError::UnknownDevice(_) => String::from_str("unknown device"),
            XapError::DuplicateDevice => String::from_str("device already registered"),
            XapError::IO(m) => m.clone(),
            XapError::JSONError(m) => m.clone(),
            XapError::HJSONError(m) => m.clone(),
        }
    }
}

pub type XapResult<T> = Result<T, XapError>;

/// The error handed to the user interface: a description of what failed.
#[derive(Debug, Clone, PartialEq, Eq)]
pub struct Error(pub String);

impl Error {
    pub fn from_xap(e: &XapError) -> (r: Error)
        ensures
            r.0@ == message_of(*e),
    {
        Error(e.message())
    }
}

} // verus!
