//! The closed device union: a tagged sum over the device variants, with
//! capability dispatch as a total match at every site.
use crate::device::device_trait::PowerConsumption;
use crate::device::device_trait::PowerControl;
use crate::device::device_trait::SmartDeviceTrait;
use crate::device::device_trait::TemperatureSensor;
use crate::device::socket::SmartSocket;
use crate::device::socket::SocketV;
use crate::device::thermometer::SmartThermometer;
use crate::device::thermometer::ThermometerV;
use crate::report::Reporter;
use crate::tenths::Tenths;
use vstd::prelude::*;

verus! {

/// Mathematical content of a [`SmartDevice`]: one of the variant views.
pub ghost enum DeviceV {
    Thermometer(ThermometerV),
    Socket(SocketV),
}

impl DeviceV {
    /// The device's name, whatever its variant.
    pub open spec fn name(self) -> Seq<char> {
        match self {
            DeviceV::Thermometer(t) => t.name,
            DeviceV::Socket(s) => s.name,
        }
    }

    /// The text of the device's report line, by variant.
    pub open spec fn report_chars(self) -> Seq<char> {
        match self {
            DeviceV::Thermometer(t) => crate::device::thermometer::thermometer_report_chars(t),
            DeviceV::Socket(s) => crate::device::socket::socket_report_chars(s),
        }
    }

    /// The device after a turn-on request: a socket comes on, any other
    /// variant is left untouched.
    pub open spec fn turned_on(self) -> DeviceV {
        match self {
            DeviceV::Socket(s) => DeviceV::Socket(SocketV { is_on: true, ..s }),
            DeviceV::Thermometer(t) => DeviceV::Thermometer(t),
        }
    }

    /// The device after a turn-off request: a socket goes off, any other
    /// variant is left untouched.
    pub open spec fn turned_off(self) -> DeviceV {
        match self {
            DeviceV::Socket(s) => DeviceV::Socket(SocketV { is_on: false, ..s }),
            DeviceV::Thermometer(t) => DeviceV::Thermometer(t),
        }
    }
}

/// A device in a smart house: a closed union over the supported variants.
#[derive(Debug)]
pub enum SmartDevice {
    Thermometer(SmartThermometer),
    Socket(SmartSocket),
}

impl View for SmartDevice {
    type V = DeviceV;

    open spec fn view(&self) -> DeviceV {
        match self {
            SmartDevice::Thermometer(t) => DeviceV::Thermometer(t@),
            SmartDevice::Socket(s) => DeviceV::Socket(s@),
        }
    }
}

impl SmartDevice {
    /// Checks if the device supports power control functionality.
    pub fn supports_power_control(&self) -> (r: bool)
        ensures
            r == (self@ is Socket),
    {
        match self {
            SmartDevice::Socket(_) => true,
            SmartDevice::Thermometer(_) => false,
        }
    }

    /// Checks if the device is on, if it supports power control.
    pub fn is_on(&self) -> (r: Option<bool>)
        ensures
            match self@ {
                DeviceV::Socket(s) => r == Some(s.is_on),
                DeviceV::Thermometer(_) => r is None,
            },
    {
        match self {
            SmartDevice::Socket(socket) => Some(socket.is_on()),
            SmartDevice::Thermometer(_) => None,
        }
    }

    /// Turns the device on, if it supports power control.
    /// Returns true if the operation was applicable.
    pub fn turn_on(&mut self) -> (r: bool)
        ensures
            r == (old(self)@ is Socket),
            final(self)@ == old(self)@.turned_on(),
    {
        match self {
            SmartDevice::Socket(socket) => {
                socket.turn_on();
                true
            }
            SmartDevice::Thermometer(_) => false,
        }
    }

    /// Turns the device off, if it supports power control.
    /// Returns true if the operation was applicable.
    pub fn turn_off(&mut self) -> (r: bool)
        ensures
            r == (old(self)@ is Socket),
            final(self)@ == old(self)@.turned_off(),
    {
        match self {
            SmartDevice::Socket(socket) => {
                socket.turn_off();
                true
            }
            SmartDevice::Thermometer(_) => false,
        }
    }

    /// Gets the temperature, if the device is a thermometer.
    pub fn temperature(&self) -> (r: Option<Tenths>)
        ensures
            match self@ {
                DeviceV::Thermometer(t) => r matches Some(v) && v@ == t.temperature,
                DeviceV::Socket(_) => r is None,
            },
    {
        match self {
            SmartDevice::Thermometer(thermometer) => Some(thermometer.temperature()),
            SmartDevice::Socket(_) => None,
        }
    }

    /// Gets the effective power consumption, if the device is a socket.
    pub fn power_consumption(&self) -> (r: Option<Tenths>)
        ensures
            match self@ {
                DeviceV::Socket(s) => r matches Some(v) && v@ == s.active_power(),
                DeviceV::Thermometer(_) => r is None,
            },
    {
        match self {
            SmartDevice::Socket(socket) => Some(socket.power_consumption()),
            SmartDevice::Thermometer(_) => None,
        }
    }
}

impl SmartDeviceTrait for SmartDevice {
    open spec fn name_spec(&self) -> Seq<char> {
        self@.name()
    }

    fn name(&self) -> (r: &str) {
        match self {
            SmartDevice::Thermometer(thermometer) => thermometer.name(),
            SmartDevice::Socket(socket) => socket.name(),
        }
    }
}

impl Reporter for SmartDevice {
    open spec fn report_spec(&self) -> Seq<char> {
        self@.report_chars()
    }

    fn report(&self) -> (r: String) {
        match self {
            SmartDevice::Thermometer(thermometer) => thermometer.report(),
            SmartDevice::Socket(socket) => socket.report(),
        }
    }
}

impl From<SmartSocket> for SmartDevice {
    fn from(socket: SmartSocket) -> (r: SmartDevice) {
        SmartDevice::Socket(socket)
    }
}

impl vstd::std_specs::convert::FromSpecImpl<SmartSocket> for SmartDevice {
    open spec fn obeys_from_spec() -> bool {
        true
    }

    open spec fn from_spec(socket: SmartSocket) -> SmartDevice {
        SmartDevice::Socket(socket)
    }
}

impl From<SmartThermometer> for SmartDevice {
    fn from(thermometer: SmartThermometer) -> (r: SmartDevice) {
        SmartDevice::Thermometer(thermometer)
    }
}

impl vstd::std_specs::convert::FromSpecImpl<SmartThermometer> for SmartDevice {
    open spec fn obeys_from_spec() -> bool {
        true
    }

    open spec fn from_spec(thermometer: SmartThermometer) -> SmartDevice {
        SmartDevice::Thermometer(thermometer)
    }
}

} // verus!
