//! Driver for the VL53L0X time-of-flight laser-ranging sensor.
//!
//! The sensor is reached over a register-addressed bus; the bus transport
//! itself is a capability supplied by the caller through the [`bus::Bus`]
//! trait.  Everything the driver does is a sequence of write-then-read
//! transactions against that transport, and the contracts of the driver's
//! operations are stated over the transaction history that the trait exposes
//! as ghost state.

pub mod bus;
pub mod budget;
pub mod device;
pub mod registers;
pub mod sim;
pub mod spad;
pub mod timing;

pub use bus::Bus;
pub use bus::Txn;
pub use device::Error;
pub use device::NbError;
pub use device::VL53L0X;
