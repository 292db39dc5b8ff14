// Verified core of a C-ABI boundary around a device's location simulation service:
// argument checks made before any I/O, the mapping of device outcomes to a single
// error-or-nothing signal, and the lifecycle of a session handle.
pub mod error;
mod external;
pub mod protocol;
pub mod session;
