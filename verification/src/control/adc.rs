//! ADC commands of the control serial channel.

use vstd::prelude::*;

use super::CommandError;

verus! {

/// An ADC command: the voltage of a domain is read.
#[derive(Clone, Copy, Debug, PartialEq, Eq, Structural)]
pub enum Command {
    ReadDomain1,
    ReadDomain2,
    ReadDomain3,
}

/// The command that some bytes stand for: its code, and nothing else.
pub open spec fn parsed(bytes: Seq<u8>) -> Option<Command> {
    if bytes.len() != 1 {
        None
    } else {
        match bytes[0] {
            0x50 => Some(Command::ReadDomain1),
            0x51 => Some(Command::ReadDomain2),
            0x52 => Some(Command::ReadDomain3),
            _ => None,
        }
    }
}

impl Command {
    /// Reads a command from its bytes.
    pub fn from_bytes(buf: &[u8]) -> (command: Result<Self, CommandError>)
        ensures
            match command {
                Ok(command) => parsed(buf@) == Some(command),
                Err(error) => parsed(buf@) is None && error == CommandError::Invalid,
            },
    {
        if buf.len() != 1 {
            return Err(CommandError::Invalid);
        }
        match buf[0] {
            0x50 => Ok(Command::ReadDomain1),
            0x51 => Ok(Command::ReadDomain2),
            0x52 => Ok(Command::ReadDomain3),
            _ => Err(CommandError::Invalid),
        }
    }
}

/// Each domain is read by its own code alone, and nothing else is a command.
pub proof fn law_domains_have_their_codes(bytes: Seq<u8>)
    ensures
        parsed(bytes) == Some(Command::ReadDomain1) <==> bytes == seq![0x50u8],
        parsed(bytes) == Some(Command::ReadDomain2) <==> bytes == seq![0x51u8],
        parsed(bytes) == Some(Command::ReadDomain3) <==> bytes == seq![0x52u8],
{
    assert(seq![0x50u8][0] == 0x50 && seq![0x51u8][0] == 0x51 && seq![0x52u8][0] == 0x52);
    if bytes.len() == 1 {
        assert(bytes =~= seq![bytes[0]]);
    }
}

} // verus!
