//! Commands of the control serial channel.

use vstd::prelude::*;
use vstd::slice::slice_subrange;

use crate::bridge;
use crate::control_protocol::{
    ERROR_BUFFER_OVERFLOW_DETAIL, ERROR_DENIED, ERROR_EXTENDED, ERROR_FAULT, ERROR_INVALID,
    ERROR_TIMEOUT, MIN_REQUEST_FRAME_LEN,
};
use crate::manager_model::known;
use crate::payload::{copy_payload, payload_bytes, Payload};

pub mod adc;
pub mod fan;
pub mod gpio;
pub mod i2c;
pub mod system;

verus! {

pub const PAGE_SYSTEM: u8 = 0x00;
pub const PAGE_I2C: u8 = 0x05;
pub const PAGE_GPIO: u8 = 0x06;
pub const PAGE_ADC: u8 = 0x07;
pub const PAGE_FAN: u8 = 0x09;

/// Why a command fails.
#[derive(Clone, Copy, Debug, PartialEq, Eq, Structural)]
pub enum CommandError {
    Timeout,
    Invalid,
    Denied,
    Fault,
    BufferOverflow,
}

/// A command of any page.
#[derive(Clone, Copy, Debug, PartialEq, Eq, Structural)]
pub enum Command {
    System(system::Command),
    I2c(i2c::Command),
    Gpio(gpio::Command),
    Adc(adc::Command),
    Fan(fan::Command),
}

/// How an error of the bridge is passed on.
pub open spec fn passed_on(error: bridge::CommandError) -> CommandError {
    match error {
        bridge::CommandError::Invalid => CommandError::Invalid,
        bridge::CommandError::Denied => CommandError::Denied,
        bridge::CommandError::Fault => CommandError::Fault,
    }
}

/// The payload that reports an error.
pub open spec fn error_bytes(error: CommandError) -> Seq<u8> {
    match error {
        CommandError::Timeout => seq![ERROR_TIMEOUT],
        CommandError::Invalid => seq![ERROR_INVALID],
        CommandError::Denied => seq![ERROR_DENIED],
        CommandError::Fault => seq![ERROR_FAULT],
        CommandError::BufferOverflow => seq![ERROR_EXTENDED] + ERROR_BUFFER_OVERFLOW_DETAIL@,
    }
}

/// The command that the bytes after the page of a request stand for.
pub open spec fn parsed(page: u8, bytes: Seq<u8>) -> Option<Command> {
    if page == PAGE_SYSTEM {
        match system::parsed(bytes) {
            Some(command) => Some(Command::System(command)),
            None => None,
        }
    } else if page == PAGE_I2C {
        match i2c::parsed(bytes) {
            Some(command) => Some(Command::I2c(command)),
            None => None,
        }
    } else if page == PAGE_GPIO {
        match gpio::parsed(bytes) {
            Some(command) => Some(Command::Gpio(command)),
            None => None,
        }
    } else if page == PAGE_ADC {
        match adc::parsed(bytes) {
            Some(command) => Some(Command::Adc(command)),
            None => None,
        }
    } else if page == PAGE_FAN {
        match fan::parsed(bytes) {
            Some(command) => Some(Command::Fan(command)),
            None => None,
        }
    } else {
        None
    }
}

impl CommandError {
    /// Passes on an error of the bridge.
    pub fn from_bridge(error: bridge::CommandError) -> (passed: Self)
        ensures
            passed == passed_on(error),
    {
        match error {
            bridge::CommandError::Invalid => CommandError::Invalid,
            bridge::CommandError::Denied => CommandError::Denied,
            bridge::CommandError::Fault => CommandError::Fault,
        }
    }

    /// The payload that reports the error.
    pub fn encode(self) -> (payload: Payload)
        ensures
            payload_bytes(payload) == error_bytes(self),
    {
        let code: u8 = match self {
            CommandError::Timeout => ERROR_TIMEOUT,
            CommandError::Invalid => ERROR_INVALID,
            CommandError::Denied => ERROR_DENIED,
            CommandError::Fault => ERROR_FAULT,
            CommandError::BufferOverflow => {
                let detail = ERROR_BUFFER_OVERFLOW_DETAIL;
                let bytes: [u8; 4] = [ERROR_EXTENDED, detail[0], detail[1], detail[2]];
                assert(bytes@ =~= error_bytes(self));
                return copy_payload(bytes.as_slice());
            },
        };
        let bytes: [u8; 1] = [code];
        assert(bytes@ =~= error_bytes(self));
        copy_payload(bytes.as_slice())
    }
}

/// What the host is answered where the bridge gave `result`.
pub open spec fn relayed(result: Result<Payload, bridge::CommandError>) -> Result<
    Seq<u8>,
    CommandError,
> {
    match result {
        Ok(payload) => Ok(payload_bytes(payload)),
        Err(error) => Err(passed_on(error)),
    }
}

/// The bytes of an answer, or its error.
pub open spec fn answer_content(answer: Result<Payload, CommandError>) -> Result<
    Seq<u8>,
    CommandError,
> {
    match answer {
        Ok(payload) => Ok(payload_bytes(payload)),
        Err(error) => Err(error),
    }
}

/// Answers the host with what the bridge gave: a payload as it is, and an error
/// passed on.
pub fn relay(result: Result<Payload, bridge::CommandError>) -> (answer: Result<
    Payload,
    CommandError,
>)
    ensures
        answer_content(answer) == relayed(result),
{
    match result {
        Ok(payload) => Ok(payload),
        Err(error) => Err(CommandError::from_bridge(error)),
    }
}

impl Command {
    /// Reads the command of a complete request frame: the page is its fifth byte,
    /// and the command with its data follows.
    pub fn from_frame(frame: &[u8]) -> (command: Result<Self, CommandError>)
        requires
            frame@.len() >= MIN_REQUEST_FRAME_LEN,
        ensures
            match command {
                Ok(command) => parsed(frame@[4], frame@.skip(5)) == Some(command),
                Err(error) => parsed(frame@[4], frame@.skip(5)) is None && error
                    == CommandError::Invalid,
            },
    {
        let page = frame[4];
        let bytes = slice_subrange(frame, 5, frame.len());
        assert(bytes@ =~= frame@.skip(5));
        if page == PAGE_SYSTEM {
            match system::Command::from_bytes(bytes) {
                Ok(command) => Ok(Command::System(command)),
                Err(error) => Err(error),
            }
        } else if page == PAGE_I2C {
            match i2c::Command::from_bytes(bytes) {
                Ok(command) => Ok(Command::I2c(command)),
                Err(error) => Err(error),
            }
        } else if page == PAGE_GPIO {
            match gpio::Command::from_bytes(bytes) {
                Ok(command) => Ok(Command::Gpio(command)),
                Err(error) => Err(error),
            }
        } else if page == PAGE_ADC {
            match adc::Command::from_bytes(bytes) {
                Ok(command) => Ok(Command::Adc(command)),
                Err(error) => Err(error),
            }
        } else if page == PAGE_FAN {
            match fan::Command::from_bytes(bytes) {
                Ok(command) => Ok(Command::Fan(command)),
                Err(error) => Err(error),
            }
        } else {
            Err(CommandError::Invalid)
        }
    }
}

/// The first byte of the payload that reports an error.
pub open spec fn error_code(error: CommandError) -> u8 {
    match error {
        CommandError::Timeout => ERROR_TIMEOUT,
        CommandError::Invalid => ERROR_INVALID,
        CommandError::Denied => ERROR_DENIED,
        CommandError::Fault => ERROR_FAULT,
        CommandError::BufferOverflow => ERROR_EXTENDED,
    }
}

proof fn error_starts_with_code(error: CommandError)
    ensures
        error_bytes(error)[0] == error_code(error),
{
    assert((seq![ERROR_EXTENDED] + ERROR_BUFFER_OVERFLOW_DETAIL@)[0] == ERROR_EXTENDED);
}

/// Every error is reported differently.
pub proof fn law_errors_are_told_apart(first: CommandError, second: CommandError)
    requires
        error_bytes(first) == error_bytes(second),
    ensures
        first == second,
{
    error_starts_with_code(first);
    error_starts_with_code(second);
}

/// A command that could be read never makes a request that the bridge does not
/// know.
pub proof fn law_commands_are_known_to_the_bridge(page: u8, bytes: Seq<u8>)
    requires
        parsed(page, bytes) is Some,
    ensures
        match parsed(page, bytes)->0 {
            Command::System(command) => known(
                bridge::Request::System { command: system::code(command) },
            ),
            Command::Gpio(command) => gpio::routed(command) matches gpio::Route::Bridge(request)
                ==> known(request),
            Command::Fan(command) => known(fan::requested(command)),
            Command::I2c(_) | Command::Adc(_) => true,
        },
{
}

/// The page decides whose command it is: 0x00 system, 0x05 I2C, 0x06 GPIO, 0x07 ADC
/// and 0x09 fan. A command is read exactly where its own page reads it, and no other
/// page has any.
pub proof fn law_pages_have_their_numbers(page: u8, bytes: Seq<u8>)
    ensures
        page == 0x00 ==> (parsed(page, bytes) is Some <==> system::parsed(bytes) is Some),
        page == 0x05 ==> (parsed(page, bytes) is Some <==> i2c::parsed(bytes) is Some),
        page == 0x06 ==> (parsed(page, bytes) is Some <==> gpio::parsed(bytes) is Some),
        page == 0x07 ==> (parsed(page, bytes) is Some <==> adc::parsed(bytes) is Some),
        page == 0x09 ==> (parsed(page, bytes) is Some <==> fan::parsed(bytes) is Some),
        parsed(page, bytes) matches Some(command) ==> match command {
            Command::System(command) => page == 0x00 && system::parsed(bytes) == Some(command),
            Command::I2c(command) => page == 0x05 && i2c::parsed(bytes) == Some(command),
            Command::Gpio(command) => page == 0x06 && gpio::parsed(bytes) == Some(command),
            Command::Adc(command) => page == 0x07 && adc::parsed(bytes) == Some(command),
            Command::Fan(command) => page == 0x09 && fan::parsed(bytes) == Some(command),
        },
{
}

/// Errors have their documented codes: a single byte, or `0xff` and the letters `Buf`.
pub proof fn law_errors_have_their_codes(error: CommandError)
    ensures
        error_bytes(error) == match error {
            CommandError::Timeout => seq![0x10u8],
            CommandError::Invalid => seq![0x11u8],
            CommandError::Denied => seq![0x12u8],
            CommandError::Fault => seq![0x13u8],
            CommandError::BufferOverflow => seq![0xffu8, 0x42, 0x75, 0x66],
        },
{
    let detail = ERROR_BUFFER_OVERFLOW_DETAIL@;
    assert(detail =~= seq![0x42u8, 0x75, 0x66]);
    assert(seq![ERROR_EXTENDED] + detail =~= seq![0xffu8, 0x42, 0x75, 0x66]);
}

/// The host gets what the bridge gave: the same bytes, or an error of the same kind.
pub proof fn law_bridge_results_are_kept(result: Result<Payload, bridge::CommandError>)
    ensures
        match (result, relayed(result)) {
            (Ok(payload), Ok(bytes)) => bytes == payload_bytes(payload),
            (Err(bridge::CommandError::Invalid), Err(error)) => error is Invalid,
            (Err(bridge::CommandError::Denied), Err(error)) => error is Denied,
            (Err(bridge::CommandError::Fault), Err(error)) => error is Fault,
            _ => false,
        },
{
}

} // verus!
