//! Smart socket device implementation.
use crate::device::device_trait::PowerConsumption;
use crate::device::device_trait::PowerControl;
use crate::device::device_trait::SmartDeviceTrait;
use crate::report::Reporter;
use crate::tenths::push_tenths;
use crate::tenths::tenths_chars;
use crate::tenths::Tenths;
use vstd::prelude::*;
use vstd::string::StringExecFns;

verus! {

/// Mathematical content of a [`SmartSocket`]: its name, its on/off state,
/// and its rated power in tenths of a watt.
pub ghost struct SocketV {
    pub name: Seq<char>,
    pub is_on: bool,
    pub power: int,
}

impl SocketV {
    /// The effective draw: the rated power while the socket is on, and
    /// zero while it is off — the rating is a latent capacity, not a live
    /// reading.
    pub open spec fn active_power(self) -> int {
        if self.is_on {
            self.power
        } else {
            0
        }
    }
}

/// Controls a smart power socket that can be turned on and off and reports
/// its power consumption.
#[derive(Debug)]
pub struct SmartSocket {
    name: String,
    is_on: bool,
    power_consumption: Tenths,
}

impl View for SmartSocket {
    type V = SocketV;

    closed spec fn view(&self) -> SocketV {
        SocketV { name: self.name@, is_on: self.is_on, power: self.power_consumption@ }
    }
}

/// The report line of a socket:
/// `"Device: {name}, Status: {ON|OFF}, Power consumption: {w}W"`,
/// with the effective draw as the wattage.
pub open spec fn socket_report_chars(v: SocketV) -> Seq<char> {
    "Device: "@ + v.name + ", Status: "@ + (if v.is_on {
        "ON"@
    } else {
        "OFF"@
    }) + ", Power consumption: "@ + tenths_chars(v.active_power()) + "W"@
}

impl SmartSocket {
    /// Creates a new smart socket with the specified parameters.  The
    /// rated power must be non-negative: a negative wattage is rejected
    /// here, at construction, rather than propagated into readings and
    /// reports.
    pub fn new(name: String, is_on: bool, power_consumption: Tenths) -> (r: SmartSocket)
        requires
            power_consumption@ >= 0,
        ensures
            r@ == (SocketV { name: name@, is_on: is_on, power: power_consumption@ }),
    {
        SmartSocket { name, is_on, power_consumption }
    }

    /// Calculates the active power consumption based on the current state.
    fn calculate_active_power(&self) -> (r: Tenths)
        ensures
            r@ == self@.active_power(),
    {
        if self.is_on {
            self.power_consumption
        } else {
            Tenths::zero()
        }
    }
}

impl SmartDeviceTrait for SmartSocket {
    open spec fn name_spec(&self) -> Seq<char> {
        self@.name
    }

    fn name(&self) -> (r: &str) {
        self.name.as_str()
    }
}

impl PowerControl for SmartSocket {
    open spec fn on_spec(&self) -> bool {
        self@.is_on
    }

    fn is_on(&self) -> (r: bool) {
        self.is_on
    }

    fn turn_on(&mut self)
        ensures
            final(self)@ == (SocketV { is_on: true, ..old(self)@ }),
    {
        self.is_on = true;
    }

    fn turn_off(&mut self)
        ensures
            final(self)@ == (SocketV { is_on: false, ..old(self)@ }),
    {
        self.is_on = false;
    }
}

impl PowerConsumption for SmartSocket {
    open spec fn power_spec(&self) -> int {
        self@.active_power()
    }

    fn power_consumption(&self) -> (p: Tenths) {
        self.calculate_active_power()
    }
}

impl Reporter for SmartSocket {
    open spec fn report_spec(&self) -> Seq<char> {
        socket_report_chars(self@)
    }

    fn report(&self) -> (r: String) {
        let mut r = String::new();
        r.append("Device: ");
        r.append(self.name.as_str());
        r.append(", Status: ");
        if self.is_on {
            r.append("ON");
        } else {
            r.append("OFF");
        }
        r.append(", Power consumption: ");
        let p = self.calculate_active_power();
        push_tenths(&mut r, p);
        r.append("W");
        proof {
            assert(r@ =~= socket_report_chars(self@));
        }
        r
    }
}

} // verus!
