//! Constants used by the application-kit layer of the bridge.

pub mod enums;
