//! Resolution of local paths into content-addressed file references, and the
//! decisions behind storing an authorization token.

pub mod digest;
pub mod reference;
pub mod resolver;
pub mod auth;
