//! Records, authorization and the collaboration-request state machine of a
//! directory of developer profiles, projects and collaboration requests.
//!
//! Every operation takes the accounts it touches, checks the caller and the
//! addresses first, then validates its inputs, and only then writes: an
//! operation that returns an error leaves every account as it was.

pub mod error;
pub mod address;
pub mod text;
pub mod model;
pub mod user;
pub mod project;
pub mod request;
pub mod laws;
