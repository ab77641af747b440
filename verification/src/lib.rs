//! A local real-time message relay: a bounded broadcast bus with an
//! overwrite-oldest policy per subscriber, the per-connection reader and
//! writer decisions that feed and drain it, and the start-up decision of
//! the relay that owns it.

pub mod model;
pub mod bus;
pub mod laws;
pub mod conn;
pub mod startup;
