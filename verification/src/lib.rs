//! Route registration and request dispatch for the node's read-only HTTP
//! query surface: request validation, typed errors, the response envelope and
//! the two handlers that report the client version and the chain's genesis time.

pub mod beacon_node;
pub mod error;
pub mod json;
pub mod request;
pub mod response;
pub mod router;
