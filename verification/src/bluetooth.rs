//! Bluetooth profiles.

pub mod serial;
