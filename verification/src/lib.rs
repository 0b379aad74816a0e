//! Pull-based reactive values.
//!
//! A signal is a value that can be asked whether it has changed since it was
//! last asked. Signals are composed into derived signals, which recompute
//! only when one of their inputs has changed.

pub mod signal;
