//! Verified core of the Flipper Zero SDK bindings: the decisions, codes and
//! conversions that the firmware wrappers are built around.

pub mod bits;
mod text;
pub mod bluetooth;
pub mod cdc;
pub mod io;
pub mod gui;
pub mod worker;
