//! An in-process socket simulator: the reference device behind the
//! device-command server. It can emulate going offline, in which case every
//! command fails with a fixed error.

use vstd::prelude::*;
use vstd::string::*;
use crate::errors::ErrorSm;
use crate::traits::{Described, OptReplay, PowerConsumptionMeter, Replay, SmartDevice, SocketTrait,
    Switchable};

verus! {

/// A simulated switchable, power-metered socket.
#[derive(Debug)]
pub struct SocketStub {
    /// Power draw in watts: 2000 while on, 0 while off.
    pub power_consumption_wt: u32,
    /// Whether the socket is switched on.
    pub state: bool,
    pub description: String,
    /// True while the device emulates being reachable.
    pub connection_state_emulation: bool,
}

/// The error every command returns while the device emulates being offline.
pub open spec fn offline_msg() -> Seq<char> {
    "Device not respond"@
}

impl SocketStub {
    /// A fresh socket: off, drawing nothing, online.
    pub fn new(desc: String) -> (s: SocketStub)
        ensures
            s.power_consumption_wt == 0,
            s.state == false,
            s.description == desc,
            s.connection_state_emulation == true,
    {
        SocketStub {
            power_consumption_wt: 0,
            state: false,
            description: desc,
            connection_state_emulation: true,
        }
    }

    /// Sets whether the device emulates being reachable.
    pub fn online(&mut self, state: bool)
        ensures
            *final(self) == (SocketStub { connection_state_emulation: state, ..*old(self) }),
    {
        self.connection_state_emulation = state;
    }
}

impl PowerConsumptionMeter for SocketStub {
    fn power_consumption_wt(&mut self) -> (r: OptReplay<u32>)
        ensures
            *final(self) == *old(self),
            old(self).connection_state_emulation ==> r == OptReplay::<u32>::Ok(
                Some(old(self).power_consumption_wt),
            ),
            !old(self).connection_state_emulation ==> (r matches Err(e) && e.msg@
                == offline_msg()),
    {
        if !self.connection_state_emulation {
            return Err(ErrorSm { msg: String::from_str("Device not respond") });
        }
        Ok(Some(self.power_consumption_wt))
    }
}

impl Switchable for SocketStub {
    fn turn_on(&mut self) -> (r: Replay<bool>)
        ensures
            final(self).state == true,
            final(self).description == old(self).description,
            final(self).connection_state_emulation == old(self).connection_state_emulation,
            old(self).connection_state_emulation ==> r == Replay::<bool>::Ok(true)
                && final(self).power_consumption_wt == 2000,
            !old(self).connection_state_emulation ==> (r matches Err(e) && e.msg@ == offline_msg())
                && final(self).power_consumption_wt == old(self).power_consumption_wt,
    {
        self.state = true;
        if !self.connection_state_emulation {
            return Err(ErrorSm { msg: String::from_str("Device not respond") });
        }
        self.power_consumption_wt = 2000;
        Ok(true)
    }

    fn turn_off(&mut self) -> (r: Replay<bool>)
        ensures
            final(self).state == false,
            final(self).description == old(self).description,
            final(self).connection_state_emulation == old(self).connection_state_emulation,
            old(self).connection_state_emulation ==> r == Replay::<bool>::Ok(true)
                && final(self).power_consumption_wt == 0,
            !old(self).connection_state_emulation ==> (r matches Err(e) && e.msg@ == offline_msg())
                && final(self).power_consumption_wt == old(self).power_consumption_wt,
    {
        self.state = false;
        if !self.connection_state_emulation {
            return Err(ErrorSm { msg: String::from_str("Device not respond") });
        }
        self.power_consumption_wt = 0;
        Ok(true)
    }

    fn current_state(&mut self) -> (r: Replay<bool>)
        ensures
            *final(self) == *old(self),
            old(self).connection_state_emulation ==> r == Replay::<bool>::Ok(old(self).state),
            !old(self).connection_state_emulation ==> (r matches Err(e) && e.msg@
                == offline_msg()),
    {
        if !self.connection_state_emulation {
            return Err(ErrorSm { msg: String::from_str("Device not respond") });
        }
        Ok(self.state)
    }
}

impl Described for SocketStub {
    fn description(&mut self) -> (d: String)
        ensures
            *final(self) == *old(self),
            d == old(self).description,
    {
        self.description.clone()
    }
}

impl SocketTrait for SocketStub {

}

impl SmartDevice for SocketStub {

}

} // verus!
