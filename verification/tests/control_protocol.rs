use bitaxe_birds_raw::control_protocol::{
    request_frame_length, response_frame_length, response_header, FrameError, ERROR_BUFFER_OVERFLOW_DETAIL,
    ERROR_DENIED, ERROR_EXTENDED, ERROR_FAULT, ERROR_INVALID, ERROR_TIMEOUT,
};

#[test]
fn waits_for_a_fragmented_header_and_body() {
    assert_eq!(request_frame_length(&[], 4098), Ok(None));
    assert_eq!(request_frame_length(&[6], 4098), Ok(None));
    assert_eq!(request_frame_length(&[6, 0, 1], 4098), Ok(None));
    assert_eq!(request_frame_length(&[6, 0, 1, 0, 6, 2], 4098), Ok(Some(6)));
}

#[test]
fn rejects_invalid_request_lengths() {
    assert_eq!(request_frame_length(&[5, 0], 4098), Err(FrameError::InvalidLength));
    assert_eq!(request_frame_length(&[3, 0], 4098), Err(FrameError::InvalidLength));
    assert_eq!(request_frame_length(&[0xff, 0xff], 4098), Err(FrameError::InvalidLength));
}

#[test]
fn accepts_the_first_frame_from_a_coalesced_buffer() {
    let frames = [6, 0, 1, 0, 6, 2, 6, 0, 2, 0, 6, 3];
    assert_eq!(request_frame_length(&frames, 4098), Ok(Some(6)));
}

#[test]
fn response_length_includes_length_and_id_fields() {
    assert_eq!(response_frame_length(0), Some(3));
    assert_eq!(response_frame_length(1), Some(4));
    assert_eq!(response_frame_length(256), Some(259));
    assert_eq!(response_frame_length(usize::MAX), None);
}

#[test]
fn error_codes_match_bitaxe_raw_esp() {
    assert_eq!(ERROR_TIMEOUT, 0x10);
    assert_eq!(ERROR_INVALID, 0x11);
    assert_eq!(ERROR_DENIED, 0x12);
    assert_eq!(ERROR_FAULT, 0x13);
    assert_eq!([&[ERROR_EXTENDED][..], &ERROR_BUFFER_OVERFLOW_DETAIL].concat(), b"\xffBuf");
}

#[test]
fn the_largest_request_is_accepted_and_no_larger_one() {
    let mut frame = vec![0u8; 4099];
    frame[0] = 0x02;
    frame[1] = 0x10;
    assert_eq!(request_frame_length(&frame[..4097], 4098), Ok(None));
    assert_eq!(request_frame_length(&frame, 4098), Ok(Some(4098)));
    frame[0] = 0x03;
    assert_eq!(request_frame_length(&frame, 4098), Err(FrameError::InvalidLength));
    assert_eq!(request_frame_length(&[6, 0, 1, 0, 6, 2], 5), Err(FrameError::InvalidLength));
}

#[test]
fn the_longest_response_is_announced_in_two_bytes() {
    assert_eq!(response_frame_length(0xfffc), Some(0xffff));
    assert_eq!(response_frame_length(0xfffd), None);
}

#[test]
fn a_request_arrives_byte_by_byte() {
    let request = [9, 0, 1, 0, 5, 0x40, 0x32, 0xfe, 2, 0x77];
    for received in 0..9 {
        assert_eq!(request_frame_length(&request[..received], 64), Ok(None));
    }
    assert_eq!(request_frame_length(&request[..9], 64), Ok(Some(9)));
    assert_eq!(request_frame_length(&request, 64), Ok(Some(9)));
}

#[test]
fn responses_start_with_their_length_and_the_request_id() {
    assert_eq!(response_header(0x7e, 1), Some([4, 0, 0x7e]));
    assert_eq!(response_header(9, 256), Some([3, 1, 9]));
    assert_eq!(response_header(9, 0xfffd), None);
}

#[test]
fn more_bytes_do_not_mend_an_invalid_length() {
    for more in 0..8 {
        let mut frame = vec![5, 0];
        frame.resize(2 + more, 0x11);
        assert_eq!(request_frame_length(&frame, 4098), Err(FrameError::InvalidLength));
    }
}
