//! The SOCKS5 wire format.
//!
//! Every message type comes with three things: a `wire` function that says,
//! as a sequence of bytes, how a value is written; a `parse` function that
//! says what a sequence of bytes decodes to and how many bytes that takes;
//! and the executable encoder and decoder, whose contracts refer to the two.

use crate::error::Error;
use vstd::prelude::*;

pub mod address;
pub mod command;
pub mod handshake;
pub mod laws;
pub mod reply;
pub mod request;
pub mod response;
pub mod udp;

verus! {

/// The version byte that opens every message on the control channel.
pub const SOCKS_VERSION: u8 = 0x05;

/// What a decoder returned, in the terms of the `parse` functions: the view
/// of the value and the number of bytes taken, or the error.
pub open spec fn decoded<T: View>(res: Result<(T, usize), Error>) -> Result<(T::V, nat), Error> {
    match res {
        Ok((value, taken)) => Ok((value@, taken as nat)),
        Err(e) => Err(e),
    }
}

} // verus!
