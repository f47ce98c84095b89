//! A simulation core for ship devices that are wired into networks and scripted
//! by chips: the fixed-point value engine, the device and network model, and the
//! tick that moves shared values between them.

pub mod deserializer;
pub mod devices;
pub mod field;
pub mod network;
pub mod networks;
pub mod text;
pub mod value;

pub use network::Network;
pub use networks::Networks;
