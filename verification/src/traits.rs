//! Capability traits of the smart devices.

use vstd::prelude::*;
use vstd::string::*;
use crate::errors::ErrorSm;

verus! {

/// Result of a device command.
pub type Replay<T> = Result<T, ErrorSm>;

/// Result of a device reading that may never have been observed.
pub type OptReplay<T> = Result<Option<T>, ErrorSm>;

/// Anything that can describe itself in one line.
pub trait Described {
    fn description(&mut self) -> String {
        String::from_str("none")
    }
}

/// A device that can be switched on and off.
pub trait Switchable {
    fn turn_on(&mut self) -> Replay<bool>;

    fn turn_off(&mut self) -> Replay<bool>;

    fn current_state(&mut self) -> Replay<bool>;
}

/// A device that meters its power draw, in watts.
pub trait PowerConsumptionMeter {
    fn power_consumption_wt(&mut self) -> OptReplay<u32>;
}

/// A temperature sensor; readings are in thousandths of a degree Celsius.
pub trait Thermometer {
    fn temperature_deg_celsius(&self) -> OptReplay<i64>;
}

/// Marker for devices a room can register.
pub trait SmartDevice: Described {

}

/// The full capability set of a switchable, power-metered socket.
pub trait SocketTrait: PowerConsumptionMeter + Switchable + Described {

}

/// The full capability set of a temperature sensor.
pub trait TemperatureSensorTrait: Thermometer + Described {

}

} // verus!
