use crate::bindings::lcdhat_status_t;
use crate::lcd_device::spec_status_name;
use crate::text::{decimal, push_decimal};
use vstd::prelude::*;

verus! {

/// Errors of the display backend.
#[derive(Debug)]
pub enum Error {
    /// A configuration value or an argument is out of its range; the text names the rule.
    InvalidConfig(&'static str),
    /// A text meant for the driver holds a NUL byte.
    InvalidString,
    /// A second display session was requested while one is active.
    AlreadyInitialized,
    /// The hardware calls are not available on this platform.
    UnsupportedPlatform,
    /// The driver reported a key code outside the known keys.
    UnknownKey(u32),
    /// The driver reported a failure status.
    Status { status: lcdhat_status_t, message: String },
}

/// Result of a backend operation.
pub type Result<T> = core::result::Result<T, Error>;

/// The text that describes an error.
pub open spec fn spec_error_message(e: Error) -> Seq<char> {
    match e {
        Error::InvalidConfig(msg) => "invalid config: "@ + msg@,
        Error::InvalidString => "string contains NUL byte"@,
        Error::AlreadyInitialized => "only one active lcdhat context is supported"@,
        Error::UnsupportedPlatform => "unsupported platform: this crate requires Linux for hardware calls"@,
        Error::UnknownKey(code) => "unknown key code: "@ + decimal(code as nat),
        Error::Status { status, message } => "lcdhat status "@ + spec_status_name(status) + ": "@
            + message@,
    }
}

impl Error {
    /// The description of the error.
    pub fn message(&self) -> (r: String)
        ensures
            r@ == spec_error_message(*self),
    {
        match self {
            Error::InvalidConfig(msg) => {
                let mut s = String::from_str("invalid config: ");
                s.append(msg);
                s
            },
            Error::InvalidString => String::from_str("string contains NUL byte"),
            Error::AlreadyInitialized => String::from_str(
                "only one active lcdhat context is supported",
            ),
            Error::UnsupportedPlatform => String::from_str(
                "unsupported platform: this crate requires Linux for hardware calls",
            ),
            Error::UnknownKey(code) => {
                let mut s = String::from_str("unknown key code: ");
                push_decimal(&mut s, *code);
                s
            },
            Error::Status { status, message } => {
                let mut s = String::from_str("lcdhat status ");
                s.append(crate::lcd_device::status_message(*status).as_str());
                s.append(": ");
                s.append(message.as_str());
                s
            },
        }
    }
}

} // verus!
