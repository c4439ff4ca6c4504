//! The errors of the library.

use vstd::prelude::*;
use vstd::std_specs::convert::FromSpecImpl;

verus! {

/// An I/O failure of the platform. It is carried through unopened.
#[verifier::external_type_specification]
#[verifier::external_body]
pub struct ExIoError(std::io::Error);

/// Everything that can go wrong in a home.
#[derive(Debug)]
pub enum SmartHomeError {
    /// No device of this name is in the room that was searched.
    DeviceNotFound(String),
    /// No room of this name is in the home.
    RoomNotFound(String),
    /// The link to a device failed; the platform's failure is inside.
    ConnectionError(std::io::Error),
    /// A device answered a command with a response of the wrong kind.
    ProtocolMismatch,
}

impl From<std::io::Error> for SmartHomeError {
    /// The connection error that wraps `err`.
    fn from(err: std::io::Error) -> (error: SmartHomeError)
        ensures
            error == SmartHomeError::ConnectionError(err),
    {
        SmartHomeError::ConnectionError(err)
    }
}

impl FromSpecImpl<std::io::Error> for SmartHomeError {
    open spec fn obeys_from_spec() -> bool {
        true
    }

    open spec fn from_spec(err: std::io::Error) -> SmartHomeError {
        SmartHomeError::ConnectionError(err)
    }
}

/// `ToString::to_string` of a platform failure: the text that the platform
/// gives for it. Nothing is said of the text.
#[verifier::external_body]
fn failure_text(failure: &std::io::Error) -> String {
    failure.to_string()
}

impl SmartHomeError {
    /// The message for this error. A lookup error names what was not
    /// found. A connection error shows `detail`, the platform's own text
    /// for the failure; the other errors make no use of `detail`.
    pub open spec fn message(&self, detail: Seq<char>) -> Seq<char> {
        match self {
            SmartHomeError::DeviceNotFound(name) => "Device "@ + name@ + " not found"@,
            SmartHomeError::RoomNotFound(name) => "Room "@ + name@ + " not found"@,
            SmartHomeError::ConnectionError(_) => "Connection error: "@ + detail,
            SmartHomeError::ProtocolMismatch => "Unexpected response from the device"@,
        }
    }

    /// The message to show for this error.
    pub fn to_string(&self) -> (text: String)
        ensures
            exists|detail: Seq<char>| text@ == self.message(detail),
            !(self is ConnectionError) ==> text@ == self.message(Seq::empty()),
    {
        match self {
            SmartHomeError::DeviceNotFound(name) => {
                let mut text = String::from_str("Device ");
                text.append(name.as_str());
                text.append(" not found");
                assert(text@ == self.message(Seq::empty()));
                text
            },
            SmartHomeError::RoomNotFound(name) => {
                let mut text = String::from_str("Room ");
                text.append(name.as_str());
                text.append(" not found");
                assert(text@ == self.message(Seq::empty()));
                text
            },
            SmartHomeError::ConnectionError(failure) => {
                let detail = failure_text(failure);
                let mut text = String::from_str("Connection error: ");
                text.append(detail.as_str());
                assert(text@ == self.message(detail@));
                text
            },
            SmartHomeError::ProtocolMismatch => String::from_str(
                "Unexpected response from the device",
            ),
        }
    }
}

} // verus!
