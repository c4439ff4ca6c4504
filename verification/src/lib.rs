//! A small smart-home model: a home owns rooms, a room owns devices, and a
//! device is a remote socket or a remote thermometer reached over a
//! point-to-point link.

use vstd::prelude::*;
use vstd::std_specs::convert::FromSpecImpl;

pub mod builder;
pub mod devices;
pub mod emulator;
pub mod error;
pub mod homes;
pub mod registry;
pub mod report;
pub mod rooms;
pub mod subscrib;

pub use builder::HomeBuilder;
pub use builder::HomeWithOutRoom;
pub use builder::HomeWithRoom;
pub use devices::smartsocket::SmartSocket;
pub use devices::termo::SmartThermometer;
pub use error::SmartHomeError;
pub use homes::Home;
pub use report::Report;
pub use rooms::Room;

verus! {

/// A device of either kind. The set of kinds is closed: code that needs an
/// operation of one kind matches on the variant.
pub enum SmartDevice {
    SmartThermometer(SmartThermometer),
    SmartSocket(SmartSocket),
}

impl From<SmartSocket> for SmartDevice {
    fn from(socket: SmartSocket) -> (device: SmartDevice)
        ensures
            device == SmartDevice::SmartSocket(socket),
    {
        SmartDevice::SmartSocket(socket)
    }
}

impl FromSpecImpl<SmartSocket> for SmartDevice {
    open spec fn obeys_from_spec() -> bool {
        true
    }

    open spec fn from_spec(socket: SmartSocket) -> SmartDevice {
        SmartDevice::SmartSocket(socket)
    }
}

impl From<SmartThermometer> for SmartDevice {
    fn from(thermometer: SmartThermometer) -> (device: SmartDevice)
        ensures
            device == SmartDevice::SmartThermometer(thermometer),
    {
        SmartDevice::SmartThermometer(thermometer)
    }
}

impl FromSpecImpl<SmartThermometer> for SmartDevice {
    open spec fn obeys_from_spec() -> bool {
        true
    }

    open spec fn from_spec(thermometer: SmartThermometer) -> SmartDevice {
        SmartDevice::SmartThermometer(thermometer)
    }
}

} // verus!
