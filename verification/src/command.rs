//! The command that a request asks for.

use vstd::prelude::*;
use crate::request_error::RequestError;

verus! {

/// What the client asks the server to do.
#[derive(Copy, Clone, Eq, PartialEq, Debug, Structural)]
pub enum Command {
    /// Open a connection to the destination.
    Connect,
    /// Wait for a connection from the destination.
    Bind,
    /// Relay datagrams.
    UdpAssociate,
}

impl Command {
    /// The command that `code` stands for, if it stands for one.
    pub open spec fn spec_new(code: u8) -> Option<Command> {
        if code == 0x01 {
            Some(Command::Connect)
        } else if code == 0x02 {
            Some(Command::Bind)
        } else if code == 0x03 {
            Some(Command::UdpAssociate)
        } else {
            None
        }
    }

    /// The byte that stands for the command on the wire.
    pub open spec fn spec_code(&self) -> u8 {
        match *self {
            Command::Connect => 0x01,
            Command::Bind => 0x02,
            Command::UdpAssociate => 0x03,
        }
    }

    /// The command that `code` stands for, or the error that carries the
    /// code when it stands for none.
    pub open spec fn spec_decode(code: u8) -> Result<Command, RequestError> {
        match Command::spec_new(code) {
            Some(command) => Ok(command),
            None => Err(RequestError::CommandNotSupported(code)),
        }
    }

    /// The mapping between commands and codes loses nothing: a command is
    /// found again from its code, and a code from the command it stands for.
    pub proof fn lemma_code_round_trip(command: Command, code: u8)
        ensures
            Command::spec_new(command.spec_code()) == Some(command),
            Command::spec_new(code) == Some(command) ==> command.spec_code() == code,
            Command::spec_new(code) is Some <==> 0x01 <= code <= 0x03,
    {
    }

    /// Maps a command code to its command; `None` for any other byte.
    pub fn new(code: u8) -> (res: Option<Command>)
        ensures
            res == Command::spec_new(code),
    {
        match code {
            0x01 => Some(Command::Connect),
            0x02 => Some(Command::Bind),
            0x03 => Some(Command::UdpAssociate),
            _ => None,
        }
    }

    /// Maps a command code to its command, and any other byte to
    /// `CommandNotSupported` with that byte.
    pub fn decode(code: u8) -> (res: Result<Command, RequestError>)
        ensures
            res == Command::spec_decode(code),
    {
        match Command::new(code) {
            Some(command) => Ok(command),
            None => Err(RequestError::CommandNotSupported(code)),
        }
    }

    /// The code of the command.
    pub fn code(&self) -> (res: u8)
        ensures
            res == self.spec_code(),
    {
        match *self {
            Command::Connect => 0x01,
            Command::Bind => 0x02,
            Command::UdpAssociate => 0x03,
        }
    }
}

} // verus!
