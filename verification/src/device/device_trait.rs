//! The capability traits: a device variant implements the subset of these
//! that applies to it, and capability dispatch stays auditable at each site.
use crate::tenths::Tenths;
use vstd::prelude::*;

verus! {

/// Base trait for all smart devices.
pub trait SmartDeviceTrait {
    /// The device's name, as a character sequence.
    spec fn name_spec(&self) -> Seq<char>;

    /// Returns the name of the device.
    fn name(&self) -> (r: &str)
        ensures
            r@ == self.name_spec(),
    ;
}

/// Trait for devices that can be turned on and off.
pub trait PowerControl: SmartDeviceTrait {
    /// Whether the device is currently on.
    spec fn on_spec(&self) -> bool;

    /// Checks if the device is on.
    fn is_on(&self) -> (r: bool)
        ensures
            r == self.on_spec(),
    ;

    /// Turns the device on.
    fn turn_on(&mut self)
        ensures
            final(self).on_spec(),
    ;

    /// Turns the device off.
    fn turn_off(&mut self)
        ensures
            !final(self).on_spec(),
    ;
}

/// Trait for devices that measure temperature.
pub trait TemperatureSensor: SmartDeviceTrait {
    /// The current reading, in tenths of a degree Celsius.
    spec fn temperature_spec(&self) -> int;

    /// Returns the current temperature reading.
    fn temperature(&self) -> (t: Tenths)
        ensures
            t@ == self.temperature_spec(),
    ;
}

/// Trait for devices that consume power.
pub trait PowerConsumption: SmartDeviceTrait {
    /// The effective draw, in tenths of a watt.
    spec fn power_spec(&self) -> int;

    /// Returns the current power consumption in watts.
    fn power_consumption(&self) -> (p: Tenths)
        ensures
            p@ == self.power_spec(),
    ;
}

} // verus!
