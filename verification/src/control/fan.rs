//! Fan commands of the control serial channel.

use vstd::prelude::*;

use super::CommandError;
use crate::bridge::{Request, FAN_GET_TACH, FAN_SET_SPEED};

verus! {

/// A fan command.
#[derive(Clone, Copy, Debug, PartialEq, Eq, Structural)]
pub enum Command {
    /// Sets the speed to 0 to 100 percent.
    SetSpeed(u8),
    /// Measures the speed.
    GetTach,
}

/// The command that some bytes stand for.
pub open spec fn parsed(bytes: Seq<u8>) -> Option<Command> {
    if bytes.len() == 2 && bytes[0] == 0x10 && bytes[1] <= 100 {
        Some(Command::SetSpeed(bytes[1]))
    } else if bytes == seq![0x20u8] {
        Some(Command::GetTach)
    } else {
        None
    }
}

/// The request that a command makes of the bridge.
pub open spec fn requested(command: Command) -> Request {
    match command {
        Command::SetSpeed(speed) => Request::Fan { command: FAN_SET_SPEED, speed: Some(speed) },
        Command::GetTach => Request::Fan { command: FAN_GET_TACH, speed: None },
    }
}

impl Command {
    /// Reads a command from its bytes.
    pub fn from_bytes(buf: &[u8]) -> (command: Result<Self, CommandError>)
        ensures
            match command {
                Ok(command) => parsed(buf@) == Some(command),
                Err(error) => parsed(buf@) is None && error == CommandError::Invalid,
            },
    {
        if buf.len() == 2 && buf[0] == 0x10 && buf[1] <= 100 {
            Ok(Command::SetSpeed(buf[1]))
        } else if buf.len() == 1 && buf[0] == 0x20 {
            assert(buf@ =~= seq![0x20u8]);
            Ok(Command::GetTach)
        } else {
            Err(CommandError::Invalid)
        }
    }

    /// The request that the command makes of the bridge.
    pub fn request(&self) -> (request: Request)
        ensures
            request == requested(*self),
    {
        match *self {
            Command::SetSpeed(speed) => Request::Fan {
                command: FAN_SET_SPEED,
                speed: Some(speed),
            },
            Command::GetTach => Request::Fan { command: FAN_GET_TACH, speed: None },
        }
    }
}

/// A speed is set by two bytes and asked for by one; speeds up to 100 percent are
/// taken, and nothing else is a command.
pub proof fn law_fan_commands_have_their_codes(bytes: Seq<u8>, speed: u8)
    ensures
        parsed(bytes) == Some(Command::SetSpeed(speed)) <==> bytes == seq![0x10u8, speed] && speed
            <= 100,
        parsed(bytes) == Some(Command::GetTach) <==> bytes == seq![0x20u8],
{
    assert(seq![0x10u8, speed][0] == 0x10 && seq![0x10u8, speed][1] == speed);
    assert(seq![0x20u8].len() == 1);
    if bytes.len() == 2 {
        assert(bytes =~= seq![bytes[0], bytes[1]]);
    }
}

/// What the host asks for is what the bridge is asked for: the bytes of a command are
/// the code and the speed of its request.
pub proof fn law_fan_requests_repeat_the_command(bytes: Seq<u8>)
    requires
        parsed(bytes) is Some,
    ensures
        requested(parsed(bytes)->0) == (Request::Fan {
            command: bytes[0],
            speed: if bytes.len() == 2 {
                Some(bytes[1])
            } else {
                None
            },
        }),
{
}

} // verus!
