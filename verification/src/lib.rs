//! A two-endpoint HTTP service, stated as pure functions from a request to its
//! response, with the process start-up stated as a small state machine.

pub mod health;
pub mod lifecycle;
pub mod response;
pub mod router;
pub mod text;
