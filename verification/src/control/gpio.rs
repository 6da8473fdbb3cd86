//! GPIO commands of the control serial channel.

use vstd::prelude::*;

use super::{answer_content, relay, relayed, CommandError};
use crate::bridge::{self, Request, GPIO_5V_ENABLE, GPIO_ASIC_RESET, GPIO_ASIC_TRIP};
use crate::payload::{copy_payload, payload_bytes, Payload};

verus! {

/// A GPIO command.
#[derive(Clone, Copy, Debug, PartialEq, Eq, Structural)]
pub enum Command {
    SetAsicResetn { level: bool },
    GetAsicResetn,
    Set5vEn { level: bool },
    Get5vEn,
    SetAsicRst { level: bool },
    GetAsicRst,
    GetAsicTrip,
    SetVrEn { level: bool },
    GetVrEn,
    GetVrPgood,
}

/// Who carries out a GPIO command.
#[derive(Clone, Copy, Debug, PartialEq, Eq)]
pub enum Route {
    /// The bridge.
    Bridge(Request),
    /// The level that enables the voltage regulator is read.
    ReadVrEnable,
    /// The voltage regulator is switched, and its level is read.
    SetVrEnable { level: bool },
    /// The power-good line of the voltage regulator is read.
    ReadVrPgood,
}

/// What came of a route.
pub enum Outcome {
    /// The bridge gave a result.
    Bridge(Result<Payload, bridge::CommandError>),
    /// A line was read, after it was switched where that was asked for.
    Level(bool),
}

/// The command that some bytes stand for: a line, and a level where it is set. Any
/// level above zero is high.
pub open spec fn parsed(bytes: Seq<u8>) -> Option<Command> {
    if bytes.len() == 1 {
        match bytes[0] {
            0x00 => Some(Command::GetAsicResetn),
            0x01 => Some(Command::Get5vEn),
            0x02 => Some(Command::GetAsicRst),
            0x03 => Some(Command::GetAsicTrip),
            0x04 => Some(Command::GetVrEn),
            0x05 => Some(Command::GetVrPgood),
            _ => None,
        }
    } else if bytes.len() == 2 {
        let level = bytes[1] > 0;
        match bytes[0] {
            0x00 => Some(Command::SetAsicResetn { level }),
            0x01 => Some(Command::Set5vEn { level }),
            0x02 => Some(Command::SetAsicRst { level }),
            0x04 => Some(Command::SetVrEn { level }),
            _ => None,
        }
    } else {
        None
    }
}

/// Where a command goes.
pub open spec fn routed(command: Command) -> Route {
    match command {
        Command::GetAsicResetn | Command::GetAsicRst => Route::Bridge(
            Request::Gpio { command: GPIO_ASIC_RESET, level: None },
        ),
        Command::SetAsicResetn { level } | Command::SetAsicRst { level } => Route::Bridge(
            Request::Gpio { command: GPIO_ASIC_RESET, level: Some(level) },
        ),
        Command::Get5vEn => Route::Bridge(Request::Gpio { command: GPIO_5V_ENABLE, level: None }),
        Command::Set5vEn { level } => Route::Bridge(
            Request::Gpio { command: GPIO_5V_ENABLE, level: Some(level) },
        ),
        Command::GetAsicTrip => Route::Bridge(
            Request::Gpio { command: GPIO_ASIC_TRIP, level: None },
        ),
        Command::GetVrEn => Route::ReadVrEnable,
        Command::SetVrEn { level } => Route::SetVrEnable { level },
        Command::GetVrPgood => Route::ReadVrPgood,
    }
}

impl Command {
    /// Reads a command from its bytes.
    pub fn from_bytes(buf: &[u8]) -> (command: Result<Self, CommandError>)
        ensures
            match command {
                Ok(command) => parsed(buf@) == Some(command),
                Err(error) => parsed(buf@) is None && error == CommandError::Invalid,
            },
    {
        if buf.len() == 1 {
            match buf[0] {
                0x00 => Ok(Command::GetAsicResetn),
                0x01 => Ok(Command::Get5vEn),
                0x02 => Ok(Command::GetAsicRst),
                0x03 => Ok(Command::GetAsicTrip),
                0x04 => Ok(Command::GetVrEn),
                0x05 => Ok(Command::GetVrPgood),
                _ => Err(CommandError::Invalid),
            }
        } else if buf.len() == 2 {
            let level = buf[1] > 0;
            match buf[0] {
                0x00 => Ok(Command::SetAsicResetn { level }),
                0x01 => Ok(Command::Set5vEn { level }),
                0x02 => Ok(Command::SetAsicRst { level }),
                0x04 => Ok(Command::SetVrEn { level }),
                _ => Err(CommandError::Invalid),
            }
        } else {
            Err(CommandError::Invalid)
        }
    }

    /// Decides who carries out the command.
    pub fn route(&self) -> (route: Route)
        ensures
            route == routed(*self),
    {
        match *self {
            Command::GetAsicResetn | Command::GetAsicRst => Route::Bridge(
                Request::Gpio { command: GPIO_ASIC_RESET, level: None },
            ),
            Command::SetAsicResetn { level } | Command::SetAsicRst { level } => Route::Bridge(
                Request::Gpio { command: GPIO_ASIC_RESET, level: Some(level) },
            ),
            Command::Get5vEn => Route::Bridge(
                Request::Gpio { command: GPIO_5V_ENABLE, level: None },
            ),
            Command::Set5vEn { level } => Route::Bridge(
                Request::Gpio { command: GPIO_5V_ENABLE, level: Some(level) },
            ),
            Command::GetAsicTrip => Route::Bridge(
                Request::Gpio { command: GPIO_ASIC_TRIP, level: None },
            ),
            Command::GetVrEn => Route::ReadVrEnable,
            Command::SetVrEn { level } => Route::SetVrEnable { level },
            Command::GetVrPgood => Route::ReadVrPgood,
        }
    }
}

/// The bytes that report a level.
pub open spec fn level_bytes(level: bool) -> Seq<u8> {
    seq![
        if level {
            1u8
        } else {
            0u8
        },
    ]
}

/// What the host is answered where a command came to `outcome`.
pub open spec fn answered(outcome: Outcome) -> Result<Seq<u8>, CommandError> {
    match outcome {
        Outcome::Bridge(result) => relayed(result),
        Outcome::Level(level) => Ok(level_bytes(level)),
    }
}

impl Outcome {
    /// Answers the host.
    pub fn answer(self) -> (answer: Result<Payload, CommandError>)
        ensures
            answer_content(answer) == answered(self),
    {
        match self {
            Outcome::Bridge(result) => relay(result),
            Outcome::Level(level) => Ok(level_payload(level)),
        }
    }
}

/// The payload that reports a level.
pub fn level_payload(level: bool) -> (payload: Payload)
    ensures
        payload_bytes(payload) == level_bytes(level),
{
    let bytes: [u8; 1] = [level as u8];
    assert(bytes@ =~= level_bytes(level));
    copy_payload(bytes.as_slice())
}

/// How the surroundings carry out a route, from one state to the next.
pub type Surroundings<W> = spec_fn(W, Route) -> (W, Outcome);

/// Handling a command: its route is carried out once, and the host is answered with
/// what came of it.
pub open spec fn handled<W>(surroundings: Surroundings<W>, state: W, command: Command) -> (
    W,
    Result<Seq<u8>, CommandError>,
) {
    let (next, outcome) = surroundings(state, routed(command));
    (next, answered(outcome))
}

/// Both names of the reset do the same: a level is handed to the bridge once, as it
/// is, and what the bridge gave is the answer, with an error passed on.
pub proof fn law_reset_commands_agree<W>(
    surroundings: Surroundings<W>,
    state: W,
    level: bool,
    result: Result<Payload, bridge::CommandError>,
)
    ensures
        ({
            let set = Route::Bridge(Request::Gpio { command: GPIO_ASIC_RESET, level: Some(level) });
            let (next, outcome) = surroundings(state, set);
            &&& handled(surroundings, state, Command::SetAsicResetn { level }) == (
                next,
                answered(outcome),
            )
            &&& handled(surroundings, state, Command::SetAsicRst { level }) == (
                next,
                answered(outcome),
            )
        }),
        ({
            let get = Route::Bridge(Request::Gpio { command: GPIO_ASIC_RESET, level: None });
            let (next, outcome) = surroundings(state, get);
            &&& handled(surroundings, state, Command::GetAsicResetn) == (next, answered(outcome))
            &&& handled(surroundings, state, Command::GetAsicRst) == (next, answered(outcome))
        }),
        answered(Outcome::Bridge(result)) == match result {
            Ok(payload) => Ok::<_, CommandError>(payload_bytes(payload)),
            Err(error) => Err(super::passed_on(error)),
        },
{
}

/// Switching the voltage regulator does not involve the bridge: where the line
/// follows, the answer is the level that was asked for.
pub proof fn law_regulator_is_switched_locally<W>(
    surroundings: Surroundings<W>,
    state: W,
    level: bool,
)
    requires
        surroundings(state, Route::SetVrEnable { level }).1 == Outcome::Level(level),
    ensures
        routed(Command::SetVrEn { level }) !is Bridge,
        handled(surroundings, state, Command::SetVrEn { level }) == (
            surroundings(state, Route::SetVrEnable { level }).0,
            Ok::<_, CommandError>(level_bytes(level)),
        ),
{
}

/// `RST_N` is another name for the ASIC reset: both commands go the same way.
pub proof fn law_reset_has_an_alias(alias: Seq<u8>, reset: Seq<u8>)
    requires
        1 <= alias.len() <= 2,
        alias[0] == 0x00,
        reset == alias.update(0, 0x02),
    ensures
        parsed(alias) is Some,
        parsed(reset) is Some,
        routed(parsed(alias)->0) == routed(parsed(reset)->0),
{
}

/// Trip and power-good lines can only be read.
pub proof fn law_inputs_are_read_only(line: u8, level: u8)
    requires
        line == 0x03 || line == 0x05,
    ensures
        parsed(seq![line]) is Some,
        parsed(seq![line, level]) is None,
{
}

/// A line alone is read, a line with a level is set, any level but zero is high, and
/// nothing else is a command.
pub proof fn law_gpio_commands_have_their_codes(bytes: Seq<u8>, level: bool)
    ensures
        parsed(bytes) == Some(Command::GetAsicResetn) <==> bytes == seq![0x00u8],
        parsed(bytes) == Some(Command::Get5vEn) <==> bytes == seq![0x01u8],
        parsed(bytes) == Some(Command::GetAsicRst) <==> bytes == seq![0x02u8],
        parsed(bytes) == Some(Command::GetAsicTrip) <==> bytes == seq![0x03u8],
        parsed(bytes) == Some(Command::GetVrEn) <==> bytes == seq![0x04u8],
        parsed(bytes) == Some(Command::GetVrPgood) <==> bytes == seq![0x05u8],
        parsed(bytes) == Some(Command::SetAsicResetn { level }) <==> bytes.len() == 2 && bytes[0]
            == 0x00 && level == (bytes[1] != 0),
        parsed(bytes) == Some(Command::Set5vEn { level }) <==> bytes.len() == 2 && bytes[0] == 0x01
            && level == (bytes[1] != 0),
        parsed(bytes) == Some(Command::SetAsicRst { level }) <==> bytes.len() == 2 && bytes[0]
            == 0x02 && level == (bytes[1] != 0),
        parsed(bytes) == Some(Command::SetVrEn { level }) <==> bytes.len() == 2 && bytes[0] == 0x04
            && level == (bytes[1] != 0),
{
    assert(seq![0x00u8][0] == 0x00 && seq![0x01u8][0] == 0x01 && seq![0x02u8][0] == 0x02);
    assert(seq![0x03u8][0] == 0x03 && seq![0x04u8][0] == 0x04 && seq![0x05u8][0] == 0x05);
    if bytes.len() == 1 {
        assert(bytes =~= seq![bytes[0]]);
    }
}

/// The bridge is asked for the line and the level that the host named, under the
/// number of the line; the alias 0x00 stands for 0x02. Everything on the voltage
/// regulator is done without the bridge.
pub proof fn law_lines_keep_their_numbers(bytes: Seq<u8>)
    requires
        parsed(bytes) is Some,
    ensures
        bytes[0] <= 3 ==> routed(parsed(bytes)->0) == Route::Bridge(
            Request::Gpio {
                command: if bytes[0] == 0 {
                    2
                } else {
                    bytes[0]
                },
                level: if bytes.len() == 2 {
                    Some(bytes[1] != 0)
                } else {
                    None
                },
            },
        ),
        bytes[0] == 4 ==> routed(parsed(bytes)->0) == if bytes.len() == 2 {
            Route::SetVrEnable { level: bytes[1] != 0 }
        } else {
            Route::ReadVrEnable
        },
        bytes[0] == 5 ==> routed(parsed(bytes)->0) == Route::ReadVrPgood,
{
}

/// A level is answered with a single byte, 1 for high and 0 for low, and what the
/// bridge gave is handed on byte for byte.
pub proof fn law_answers_show_the_outcome(level: bool, payload: Payload)
    ensures
        answered(Outcome::Level(level)) matches Ok(bytes) && bytes.len() == 1 && bytes[0] <= 1 && (
        bytes[0] == 1 <==> level),
        answered(Outcome::Bridge(Ok(payload))) == Ok::<_, CommandError>(payload_bytes(payload)),
{
}

} // verus!
