//! Supervision of a single out-of-process backend: the readiness handshake,
//! the published port, the at-most-once kill capability and the set-up of the
//! operating-system guard that ties the backend's life to the host's.

pub mod child;
pub mod handshake;
pub mod job;
pub mod port;
