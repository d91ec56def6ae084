//! System-load telemetry: derivation of load percentages from the kernel's
//! counters, bandwidth-ceiling normalisation, the one-byte client protocol and
//! the idle-shutdown rule of the daemon that serves them.
pub mod bandwidth;
pub mod counters;
pub mod load;
pub mod monitor;
pub mod protocol;
pub mod text;
