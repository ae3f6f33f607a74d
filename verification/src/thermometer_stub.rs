//! An in-process temperature-sensor simulator.

use vstd::prelude::*;
use vstd::string::*;
use crate::errors::ErrorSm;
use crate::socket_stub::offline_msg;
use crate::traits::{Described, OptReplay, SmartDevice, TemperatureSensorTrait, Thermometer};

verus! {

/// A simulated temperature sensor. Readings are in thousandths of a degree
/// Celsius.
#[derive(Debug)]
pub struct ThermometerStub {
    pub description: String,
    /// Current reading, in thousandths of a degree Celsius.
    pub current_temp_deg: i64,
    /// True while the device emulates being reachable.
    pub connection_state_emulation: bool,
}

impl ThermometerStub {
    /// A fresh sensor: reading zero, online.
    pub fn new(description: String) -> (t: ThermometerStub)
        ensures
            t.description == description,
            t.current_temp_deg == 0,
            t.connection_state_emulation == true,
    {
        ThermometerStub { description, current_temp_deg: 0, connection_state_emulation: true }
    }

    /// Sets whether the device emulates being reachable.
    pub fn online(&mut self, state: bool)
        ensures
            *final(self) == (ThermometerStub {
                connection_state_emulation: state,
                ..*old(self)
            }),
    {
        self.connection_state_emulation = state;
    }
}

impl Thermometer for ThermometerStub {
    fn temperature_deg_celsius(&self) -> (r: OptReplay<i64>)
        ensures
            self.connection_state_emulation ==> r == OptReplay::<i64>::Ok(
                Some(self.current_temp_deg),
            ),
            !self.connection_state_emulation ==> (r matches Err(e) && e.msg@ == offline_msg()),
    {
        if !self.connection_state_emulation {
            return Err(ErrorSm { msg: String::from_str("Device not respond") });
        }
        Ok(Some(self.current_temp_deg))
    }
}

impl Described for ThermometerStub {
    fn description(&mut self) -> (d: String)
        ensures
            *final(self) == *old(self),
            d == old(self).description,
    {
        self.description.clone()
    }
}

impl TemperatureSensorTrait for ThermometerStub {

}

impl SmartDevice for ThermometerStub {

}

} // verus!
