//! Verified core of a driver for Total Phase Aardvark I2C/SPI host adapters.
//!
//! The adapter itself is reached through its C library; every call into it
//! is I/O and happens outside this crate. What stands here is what the
//! driver decides: how status codes become errors, which ports are free,
//! the order of the steps that open an I2C session, and how a transaction
//! runs its operations and stops at the first failure.
pub mod error;
pub mod decimal;
pub mod devices;
pub mod i2c;
pub mod session;

pub use error::{AardvarkError, AardvarkResult};
pub use session::{find_and_open_first_unused_device, open_i2c};
pub use devices::find_unused_aardvark_devices;
