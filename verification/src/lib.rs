//! Server side of the SOCKS5 proxy protocol (RFC 1928), without the sockets.
//!
//! The crate has three layers:
//!
//! * [`protocol`]: the wire codec for addresses, the handshake, requests,
//!   replies and the UDP relay header;
//! * [`connection`]: the state machine that takes a fresh connection through
//!   method negotiation, authentication and the command request, and the
//!   per-command handles that enforce the order of replies;
//! * [`buffer`]: the few operations of the `bytes` crate that the codec is
//!   built on, with the contracts the proofs rely on.
//!
//! Nothing here performs I/O. Callers read and write the bytes; the library
//! says which bytes, how many, and what they mean.

pub mod buffer;
pub mod connection;
pub mod error;
pub mod protocol;

pub use crate::connection::associate::{Associate, AssociateUdpSocket, Framed, NeedReply, Ready};
pub use crate::connection::bind::Bind;
pub use crate::connection::connect::Connect;
pub use crate::connection::{
    Action, Connection, Event, Handshake, IncomingConnection, Phase, ReplyPhase,
};
pub use crate::error::Error;
pub use crate::protocol::address::Address;
pub use crate::protocol::command::Command;
pub use crate::protocol::handshake::method::HandshakeMethod;
pub use crate::protocol::handshake::request::HandshakeRequest;
pub use crate::protocol::handshake::response::HandshakeResponse;
pub use crate::protocol::reply::Reply;
pub use crate::protocol::request::Request;
pub use crate::protocol::response::Response;
pub use crate::protocol::udp::UdpHeader;
pub use crate::protocol::SOCKS_VERSION;
