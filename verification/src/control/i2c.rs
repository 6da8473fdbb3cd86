//! I2C commands of the control serial channel.

use vstd::prelude::*;

use super::CommandError;

verus! {

/// An I2C command. The bytes to write follow the address in the request.
#[derive(Clone, Copy, Debug, PartialEq, Eq, Structural)]
pub enum Command {
    /// Writes `write_length` bytes.
    Write { address: u8, write_length: usize },
    /// Reads `read_length` bytes.
    Read { address: u8, read_length: u8 },
    /// Writes bytes and goes on to read in the same transaction.
    ReadWrite { address: u8, write_length: usize, read_length: u8 },
}

/// Where the bytes to write start, counted from the command code.
pub const WRITE_OFFSET: usize = 2;

/// The command that some bytes stand for: a code, an address, the bytes to write,
/// and the number of bytes to read, where there are any.
pub open spec fn parsed(bytes: Seq<u8>) -> Option<Command> {
    if bytes.len() < 2 {
        None
    } else if bytes[0] == 0x20 {
        Some(
            Command::Write {
                address: bytes[1],
                write_length: (bytes.len() - WRITE_OFFSET) as usize,
            },
        )
    } else if bytes[0] == 0x30 && bytes.len() == 3 {
        Some(Command::Read { address: bytes[1], read_length: bytes[2] })
    } else if bytes[0] == 0x40 && bytes.len() >= 3 {
        Some(
            Command::ReadWrite {
                address: bytes[1],
                write_length: (bytes.len() - WRITE_OFFSET - 1) as usize,
                read_length: bytes.last(),
            },
        )
    } else {
        None
    }
}

/// The bytes that a command writes, out of the bytes that it was read from.
pub open spec fn written(command: Command, bytes: Seq<u8>) -> Seq<u8> {
    match command {
        Command::Write { write_length, .. } | Command::ReadWrite { write_length, .. } => {
            bytes.skip(WRITE_OFFSET as int).take(write_length as int)
        },
        Command::Read { .. } => Seq::empty(),
    }
}

impl Command {
    /// Reads a command from its bytes.
    pub fn from_bytes(buf: &[u8]) -> (command: Result<Self, CommandError>)
        ensures
            match command {
                Ok(command) => parsed(buf@) == Some(command),
                Err(error) => parsed(buf@) is None && error == CommandError::Invalid,
            },
    {
        let length: usize = buf.len();
        if length < 2 {
            Err(CommandError::Invalid)
        } else if buf[0] == 0x20 {
            Ok(Command::Write { address: buf[1], write_length: length - WRITE_OFFSET })
        } else if buf[0] == 0x30 && length == 3 {
            Ok(Command::Read { address: buf[1], read_length: buf[2] })
        } else if buf[0] == 0x40 && length >= 3 {
            Ok(
                Command::ReadWrite {
                    address: buf[1],
                    write_length: length - WRITE_OFFSET - 1,
                    read_length: buf[length - 1],
                },
            )
        } else {
            Err(CommandError::Invalid)
        }
    }
}

/// No byte of a request is lost: what a command writes, with its code, its address
/// and what it reads, is the whole request.
pub proof fn law_request_is_used_up(bytes: Seq<u8>)
    requires
        bytes.len() <= usize::MAX,
        parsed(bytes) is Some,
    ensures
        match parsed(bytes)->0 {
            Command::Write { address, .. } => bytes == seq![0x20, address] + written(
                parsed(bytes)->0,
                bytes,
            ),
            Command::Read { address, read_length } => bytes == seq![0x30, address, read_length],
            Command::ReadWrite { address, read_length, .. } => bytes == seq![0x40, address]
                + written(parsed(bytes)->0, bytes) + seq![read_length],
        },
{
}

/// Every request to write is read: the bytes behind the address are what is written.
pub proof fn law_writes_are_read(address: u8, data: Seq<u8>)
    requires
        data.len() + 2 <= usize::MAX,
    ensures
        ({
            let request = seq![0x20u8, address] + data;
            let command = Command::Write { address, write_length: data.len() as usize };
            parsed(request) == Some(command) && written(command, request) == data
        }),
{
    let request = seq![0x20u8, address] + data;
    let command = Command::Write { address, write_length: data.len() as usize };
    assert(written(command, request) =~= data);
}

/// Every request to read is read, whatever the number of bytes.
pub proof fn law_reads_are_read(address: u8, count: u8)
    ensures
        ({
            let request = seq![0x30u8, address, count];
            let command = Command::Read { address, read_length: count };
            parsed(request) == Some(command) && written(command, request) == Seq::<u8>::empty()
        }),
{
}

/// Every request to write and read on is read: its last byte is the number of bytes
/// to read, and those between it and the address are what is written.
pub proof fn law_combined_transfers_are_read(address: u8, data: Seq<u8>, count: u8)
    requires
        data.len() + 3 <= usize::MAX,
    ensures
        ({
            let request = seq![0x40u8, address] + data + seq![count];
            let command = Command::ReadWrite {
                address,
                write_length: data.len() as usize,
                read_length: count,
            };
            parsed(request) == Some(command) && written(command, request) == data
        }),
{
    let request = seq![0x40u8, address] + data + seq![count];
    let command = Command::ReadWrite {
        address,
        write_length: data.len() as usize,
        read_length: count,
    };
    assert(request.last() == count);
    assert(written(command, request) =~= data);
}

/// No other request is read.
pub proof fn law_other_requests_are_invalid(bytes: Seq<u8>)
    requires
        bytes.len() < 2 || !(bytes[0] == 0x20 || bytes[0] == 0x30 && bytes.len() == 3 || bytes[0]
            == 0x40 && bytes.len() >= 3),
    ensures
        parsed(bytes) is None,
{
}

} // verus!
