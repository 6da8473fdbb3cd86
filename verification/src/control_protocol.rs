//! Framing of the control serial channel.
//!
//! Every frame starts with its total length, low byte first. A request goes on with
//! an identifier, a bus, a page and a command; a response goes on with the
//! identifier of its request.

use vstd::prelude::*;

verus! {

pub const MIN_REQUEST_FRAME_LEN: usize = 6;

pub const ERROR_TIMEOUT: u8 = 0x10;
pub const ERROR_INVALID: u8 = 0x11;
pub const ERROR_DENIED: u8 = 0x12;
pub const ERROR_FAULT: u8 = 0x13;
pub const ERROR_EXTENDED: u8 = 0xff;

/// The letters `Buf`, which follow [`ERROR_EXTENDED`] after a buffer overflow.
pub const ERROR_BUFFER_OVERFLOW_DETAIL: [u8; 3] = [0x42, 0x75, 0x66];

/// A request that cannot be framed.
#[derive(Clone, Copy, Debug, PartialEq, Eq, Structural)]
pub enum FrameError {
    InvalidLength,
}

/// The length that the first two bytes of a frame announce.
pub open spec fn announced_length(frame: Seq<u8>) -> nat {
    (frame[0] + 256 * frame[1]) as nat
}

/// What is known of the request at the front of `frame`.
pub open spec fn framed(frame: Seq<u8>, maximum: nat) -> Result<Option<nat>, FrameError> {
    if frame.len() < 2 {
        Ok(None)
    } else if !(MIN_REQUEST_FRAME_LEN <= announced_length(frame) <= maximum) {
        Err(FrameError::InvalidLength)
    } else if frame.len() < announced_length(frame) {
        Ok(None)
    } else {
        Ok(Some(announced_length(frame)))
    }
}

/// The length of the request at the front of `frame`: `None` while it is not
/// complete, and an error where no request can have the announced length.
pub fn request_frame_length(frame: &[u8], maximum: usize) -> (length: Result<
    Option<usize>,
    FrameError,
>)
    ensures
        match length {
            Ok(Some(length)) => framed(frame@, maximum as nat) == Ok::<_, FrameError>(
                Some(length as nat),
            ),
            Ok(None) => framed(frame@, maximum as nat) == Ok::<_, FrameError>(None::<nat>),
            Err(error) => framed(frame@, maximum as nat) == Err::<Option<nat>, _>(error),
        },
        length matches Ok(Some(length)) ==> length == frame@[0] + 256 * frame@[1],
{
    if frame.len() < 2 {
        return Ok(None);
    }
    let frame_length: usize = frame[0] as usize + 256 * frame[1] as usize;
    if frame_length < MIN_REQUEST_FRAME_LEN || frame_length > maximum {
        return Err(FrameError::InvalidLength);
    }
    if frame.len() < frame_length {
        return Ok(None);
    }
    Ok(Some(frame_length))
}

/// The length of a response with `payload_length` bytes of payload: the payload
/// follows the length and the identifier. There is none where the length cannot be
/// announced.
pub fn response_frame_length(payload_length: usize) -> (length: Option<u16>)
    ensures
        length is Some <==> payload_length + 3 <= 0xffff,
        length matches Some(length) ==> length == payload_length + 3,
{
    if payload_length <= 0xfffc {
        Some(payload_length as u16 + 3)
    } else {
        None
    }
}

/// The bytes in front of the payload of a response: its length, low byte first, and
/// the identifier of its request. There are none where the length cannot be
/// announced.
pub fn response_header(id: u8, payload_length: usize) -> (header: Option<[u8; 3]>)
    ensures
        header is Some <==> payload_length + 3 <= 0xffff,
        header matches Some(header) ==> {
            &&& announced_length(header@) == payload_length + 3
            &&& header@[0] + 256 * header@[1] == payload_length + 3
            &&& header@[2] == id
        },
{
    match response_frame_length(payload_length) {
        Some(length) => Some([(length % 256) as u8, (length / 256) as u8, id]),
        None => None,
    }
}

/// A verdict on a frame stands whatever is received after it: a complete request
/// keeps its length, and an invalid one stays invalid.
pub proof fn law_verdict_survives_more_bytes(frame: Seq<u8>, more: Seq<u8>, maximum: nat)
    requires
        framed(frame, maximum) != Ok::<Option<nat>, FrameError>(None),
    ensures
        framed(frame + more, maximum) == framed(frame, maximum),
{
    assert((frame + more)[0] == frame[0]);
    assert((frame + more)[1] == frame[1]);
}

/// A request arrives in any number of pieces: before its last byte there is
/// nothing to act on, and with it there is exactly the request.
pub proof fn law_request_is_complete_with_its_last_byte(
    request: Seq<u8>,
    received: int,
    maximum: nat,
)
    requires
        0 <= received <= request.len(),
        request.len() >= 2,
        request.len() == announced_length(request),
        MIN_REQUEST_FRAME_LEN <= request.len() <= maximum,
    ensures
        framed(request.take(received), maximum) == Ok::<Option<nat>, FrameError>(
            if received == request.len() {
                Some(request.len())
            } else {
                None
            },
        ),
{
    if received >= 2 {
        assert(request.take(received)[0] == request[0]);
        assert(request.take(received)[1] == request[1]);
    }
}

/// The first two bytes of a request are its length, low byte first: a request of a
/// possible length is complete with that many bytes and not before, and every other
/// length is refused.
pub proof fn law_length_is_little_endian(frame: Seq<u8>, maximum: nat)
    requires
        frame.len() >= 2,
    ensures
        6 <= frame[0] + 256 * frame[1] <= maximum && frame.len() >= frame[0] + 256 * frame[1]
            ==> framed(frame, maximum) == Ok::<Option<nat>, FrameError>(
            Some((frame[0] + 256 * frame[1]) as nat),
        ),
        6 <= frame[0] + 256 * frame[1] <= maximum && frame.len() < frame[0] + 256 * frame[1]
            ==> framed(frame, maximum) == Ok::<Option<nat>, FrameError>(None),
        frame[0] + 256 * frame[1] < 6 || frame[0] + 256 * frame[1] > maximum ==> framed(
            frame,
            maximum,
        ) == Err::<Option<nat>, FrameError>(FrameError::InvalidLength),
{
}

/// Without both bytes of its length a request is not complete.
pub proof fn law_length_takes_two_bytes(frame: Seq<u8>, maximum: nat)
    requires
        frame.len() < 2,
    ensures
        framed(frame, maximum) == Ok::<Option<nat>, FrameError>(None),
{
}

/// A buffer with several requests gives up the first one whole: what is cut off is
/// as long as its first two bytes say, and the next request starts right behind it.
pub proof fn law_requests_are_cut_apart(first: Seq<u8>, rest: Seq<u8>, maximum: nat)
    requires
        6 <= first.len() <= maximum,
        first.len() == first[0] + 256 * first[1],
    ensures
        framed(first + rest, maximum) == Ok::<Option<nat>, FrameError>(Some(first.len())),
        (first + rest).take(first.len() as int) == first,
        (first + rest).skip(first.len() as int) == rest,
{
    assert((first + rest)[0] == first[0]);
    assert((first + rest)[1] == first[1]);
    assert((first + rest).take(first.len() as int) =~= first);
    assert((first + rest).skip(first.len() as int) =~= rest);
}

} // verus!
