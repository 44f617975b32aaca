//! The decision core of a small HTTP server that exists to show whether a
//! cross-origin header survives failing responses.
//!
//! Everything here works on plain values: a route parameter goes in; a
//! status, a body and the cross-origin header come out. The server that owns
//! the sockets and the middleware stack asks this library what to answer.

pub mod classifier;
pub mod cors;
pub mod injector;
pub mod outcome;
pub mod pipeline;
pub mod startup;
pub mod text;

pub use classifier::handler;
pub use cors::{cors_policy, CorsPolicy, Envelope};
pub use injector::{errinjmw, FaultSwitches};
pub use outcome::{finish, AppError, FailureKind, Reply};
pub use pipeline::{dispatch, respond, serve};
pub use startup::StartupError;
