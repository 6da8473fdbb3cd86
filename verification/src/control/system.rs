//! Read-only diagnostic commands of the control serial channel.

use vstd::prelude::*;

use super::CommandError;
use crate::bridge::{
    Request, SYSTEM_GET_INFO, SYSTEM_GET_RX_STATS, SYSTEM_GET_SAFETY_STATUS,
};

verus! {

/// A diagnostic command.
#[derive(Clone, Copy, Debug, PartialEq, Eq, Structural)]
pub enum Command {
    Info,
    RxStats,
    SafetyStatus,
}

/// The byte that stands for a command.
pub open spec fn code(command: Command) -> u8 {
    match command {
        Command::Info => SYSTEM_GET_INFO,
        Command::RxStats => SYSTEM_GET_RX_STATS,
        Command::SafetyStatus => SYSTEM_GET_SAFETY_STATUS,
    }
}

/// The command that some bytes stand for: its code, and nothing else.
pub open spec fn parsed(bytes: Seq<u8>) -> Option<Command> {
    if bytes.len() != 1 {
        None
    } else if bytes[0] == SYSTEM_GET_INFO {
        Some(Command::Info)
    } else if bytes[0] == SYSTEM_GET_RX_STATS {
        Some(Command::RxStats)
    } else if bytes[0] == SYSTEM_GET_SAFETY_STATUS {
        Some(Command::SafetyStatus)
    } else {
        None
    }
}

impl Command {
    /// Reads a command from its bytes.
    pub fn from_bytes(buf: &[u8]) -> (command: Result<Self, CommandError>)
        ensures
            match command {
                Ok(command) => parsed(buf@) == Some(command),
                Err(error) => parsed(buf@) is None && error == CommandError::Invalid,
            },
    {
        if buf.len() != 1 {
            Err(CommandError::Invalid)
        } else if buf[0] == SYSTEM_GET_INFO {
            Ok(Command::Info)
        } else if buf[0] == SYSTEM_GET_RX_STATS {
            Ok(Command::RxStats)
        } else if buf[0] == SYSTEM_GET_SAFETY_STATUS {
            Ok(Command::SafetyStatus)
        } else {
            Err(CommandError::Invalid)
        }
    }

    /// The request that the command makes of the bridge.
    pub fn request(&self) -> (request: Request)
        ensures
            request == (Request::System { command: code(*self) }),
    {
        let command: u8 = match self {
            Command::Info => SYSTEM_GET_INFO,
            Command::RxStats => SYSTEM_GET_RX_STATS,
            Command::SafetyStatus => SYSTEM_GET_SAFETY_STATUS,
        };
        Request::System { command }
    }
}

/// Each diagnostic is asked for by its own code alone, nothing else is a command, and
/// the bridge is asked by the same code.
pub proof fn law_diagnostics_have_their_codes(bytes: Seq<u8>)
    ensures
        parsed(bytes) == Some(Command::Info) <==> bytes == seq![0x01u8],
        parsed(bytes) == Some(Command::RxStats) <==> bytes == seq![0x02u8],
        parsed(bytes) == Some(Command::SafetyStatus) <==> bytes == seq![0x10u8],
        parsed(bytes) matches Some(command) ==> bytes == seq![code(command)],
{
    assert(seq![0x01u8][0] == 0x01 && seq![0x02u8][0] == 0x02 && seq![0x10u8][0] == 0x10);
    if bytes.len() == 1 {
        assert(bytes =~= seq![bytes[0]]);
    }
}

} // verus!
