//! Request-translation layer of a group-messaging backend.
//!
//! An opaque RPC envelope (endpoint path, HTTP-style method name, serialized
//! body, serialized header map) is validated, classified and translated into
//! exactly one domain operation with fully parsed arguments, or rejected with
//! a single error kind. The storage pools and the domain operations themselves
//! are external collaborators; this crate only decides what to call.

pub mod context;
pub mod dispatch;
pub mod endpoint;
pub mod envelope;
pub mod jsonio;
pub mod numparse;
pub mod strutil;
