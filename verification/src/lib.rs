//! Capability-secured network sockets for a sandbox host.

pub mod types;
pub mod native;
pub mod codec;
pub mod rights;
pub mod cidr;
pub mod addr;
pub mod ossocket;
pub mod wire;
pub mod handle;
