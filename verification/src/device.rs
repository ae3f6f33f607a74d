//! The finite set of device kinds a room can register, as a tagged sum.

use vstd::prelude::*;
use crate::socket_stub::SocketStub;
use crate::thermometer_stub::ThermometerStub;

verus! {

/// A registered device.
#[derive(Debug)]
pub enum Device {
    Socket(SocketStub),
    Thermometer(ThermometerStub),
}

/// The one-line description of a device.
pub open spec fn device_description(d: Device) -> Seq<char> {
    match d {
        Device::Socket(s) => s.description@,
        Device::Thermometer(t) => t.description@,
    }
}

impl Device {
    /// The device's one-line description.
    pub fn description(&self) -> (d: String)
        ensures
            d@ == device_description(*self),
    {
        match self {
            Device::Socket(s) => s.description.clone(),
            Device::Thermometer(t) => t.description.clone(),
        }
    }
}

} // verus!
