//! The command of a request.

use crate::error::Error;
use vstd::prelude::*;

verus! {

/// What the client asks the server to do.
#[derive(Clone, Copy, Debug, PartialEq, Eq, Structural)]
pub enum Command {
    /// Open a TCP connection to the target.
    Connect,
    /// Listen for one inbound TCP connection on the client's behalf.
    Bind,
    /// Set up a UDP relay.
    Associate,
}

impl Command {
    /// The byte that stands for this command on the wire.
    pub open spec fn code(self) -> u8 {
        match self {
            Command::Connect => 0x01,
            Command::Bind => 0x02,
            Command::Associate => 0x03,
        }
    }

    /// The command that a byte stands for, if any.
    pub open spec fn of_code(b: u8) -> Result<Command, Error> {
        if b == 0x01 {
            Ok(Command::Connect)
        } else if b == 0x02 {
            Ok(Command::Bind)
        } else if b == 0x03 {
            Ok(Command::Associate)
        } else {
            Err(Error::UnsupportedCommand(b))
        }
    }

    /// Encodes the command as its wire byte.
    pub fn to_u8(self) -> (b: u8)
        ensures
            b == self.code(),
    {
        match self {
            Command::Connect => 0x01,
            Command::Bind => 0x02,
            Command::Associate => 0x03,
        }
    }

    /// Decodes a wire byte; any byte but the three command codes is refused
    /// with [`Error::UnsupportedCommand`].
    pub fn from_u8(b: u8) -> (r: Result<Command, Error>)
        ensures
            r == Command::of_code(b),
    {
        if b == 0x01 {
            Ok(Command::Connect)
        } else if b == 0x02 {
            Ok(Command::Bind)
        } else if b == 0x03 {
            Ok(Command::Associate)
        } else {
            Err(Error::UnsupportedCommand(b))
        }
    }
}

} // verus!
