//! Smart thermometer device implementation.
use crate::device::device_trait::SmartDeviceTrait;
use crate::device::device_trait::TemperatureSensor;
use crate::report::Reporter;
use crate::tenths::push_tenths;
use crate::tenths::tenths_chars;
use crate::tenths::Tenths;
use vstd::prelude::*;
use vstd::string::StringExecFns;

verus! {

/// Mathematical content of a [`SmartThermometer`]: its name and its
/// reading in tenths of a degree Celsius.
pub ghost struct ThermometerV {
    pub name: Seq<char>,
    pub temperature: int,
}

/// Provides temperature readings from a smart home thermometer.
#[derive(Debug)]
pub struct SmartThermometer {
    name: String,
    temperature: Tenths,
}

impl View for SmartThermometer {
    type V = ThermometerV;

    closed spec fn view(&self) -> ThermometerV {
        ThermometerV { name: self.name@, temperature: self.temperature@ }
    }
}

/// The report line of a thermometer:
/// `"Device: {name}, Temperature: {t}°C"`.
pub open spec fn thermometer_report_chars(v: ThermometerV) -> Seq<char> {
    "Device: "@ + v.name + ", Temperature: "@ + tenths_chars(v.temperature) + "°C"@
}

impl SmartThermometer {
    /// Creates a new thermometer with the specified name and temperature.
    pub fn new(name: String, temperature: Tenths) -> (r: SmartThermometer)
        ensures
            r@ == (ThermometerV { name: name@, temperature: temperature@ }),
    {
        SmartThermometer { name, temperature }
    }
}

impl SmartDeviceTrait for SmartThermometer {
    open spec fn name_spec(&self) -> Seq<char> {
        self@.name
    }

    fn name(&self) -> (r: &str) {
        self.name.as_str()
    }
}

impl TemperatureSensor for SmartThermometer {
    open spec fn temperature_spec(&self) -> int {
        self@.temperature
    }

    fn temperature(&self) -> (t: Tenths) {
        self.temperature
    }
}

impl Reporter for SmartThermometer {
    open spec fn report_spec(&self) -> Seq<char> {
        thermometer_report_chars(self@)
    }

    fn report(&self) -> (r: String) {
        let mut r = String::new();
        r.append("Device: ");
        r.append(self.name.as_str());
        r.append(", Temperature: ");
        push_tenths(&mut r, self.temperature);
        r.append("°C");
        proof {
            assert(r@ =~= thermometer_report_chars(self@));
        }
        r
    }
}

} // verus!
