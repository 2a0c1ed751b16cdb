//! The image gateway's handler logic: resolving a size token to image bytes,
//! either from a local directory or by relaying an origin server's response.

pub mod config;
pub mod error;
pub mod laws;
pub mod local;
pub mod proxy;
pub mod response;
