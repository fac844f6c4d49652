//! The method negotiation that opens a connection.

pub mod method;
pub mod request;
pub mod response;
