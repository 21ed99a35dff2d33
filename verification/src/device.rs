//! Device capability model: the closed set of device variants and the
//! capability traits a variant may implement.
pub mod device_trait;
pub mod smart_device;
pub mod socket;
pub mod thermometer;

pub use device_trait::SmartDeviceTrait;
pub use smart_device::SmartDevice;
pub use socket::SmartSocket;
pub use thermometer::SmartThermometer;
