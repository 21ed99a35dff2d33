//! Smart home management library.
//!
//! A pure in-memory domain model: a house contains rooms, rooms contain
//! devices, and devices expose capability-specific behavior (power control,
//! temperature sensing, power-consumption reporting).  Containers address
//! their children by unique name in insertion order, or positionally, and
//! every entity can render a deterministic textual report of itself.
pub mod device;
pub mod error;
pub mod house;
pub mod registry;
pub mod report;
pub mod room;
pub mod tenths;
pub mod text;

pub use device::SmartDevice;
pub use device::SmartDeviceTrait;
pub use device::SmartSocket;
pub use device::SmartThermometer;
pub use house::SmartHouse;
pub use report::Reporter;
pub use room::Room;
pub use tenths::Tenths;
