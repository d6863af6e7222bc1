//! A readiness gate over asynchronous asset loads, and a deferred
//! initializer that fires a dependent-construction action exactly once,
//! the first time the readiness gate reports that every load has completed.

pub mod gate;
pub mod init;
pub mod status;
