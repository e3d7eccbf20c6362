//! The deployment server: bookkeeping of running deployments, responses, and
//! the decisions of the request handlers.

pub mod emitter;
pub mod polling;
pub mod receiver;
pub mod responses;
pub mod server;
