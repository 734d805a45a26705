//! A typed client model for the REST interface of a Home Assistant hub.
//!
//! The crate holds everything about a call that can be computed without
//! touching the network: how typed parameters become a path, a query and a
//! body, how the full request is addressed and authenticated, and how the
//! loosely typed JSON that comes back is read into typed records.

pub mod client;
pub mod datetime;
pub mod deserialize;
pub mod errors;
pub mod escape;
pub mod get;
pub mod json;
pub mod post;
pub mod scalar;
pub mod serialize;
pub mod state_enum;
pub mod text;

pub use client::Client;
pub use errors::{DebuggingError, Error};
pub use state_enum::StateEnum;
