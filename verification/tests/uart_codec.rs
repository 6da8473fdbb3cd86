use bitaxe_birds_raw::uart::{host_to_asic, EndpointError, HostEvent, UartTaskError};
use bitaxe_birds_raw::uart_codec::{response_byte, NineBitPairDecoder};

#[test]
fn complete_pairs_decode_to_nine_bit_words() {
    let mut decoder = NineBitPairDecoder::new();
    let mut words = [0u16; 3];
    let count = decoder.decode(&[0x55, 1, 0xaa, 0, 0xff, 1], &mut words);

    assert_eq!(count, 3);
    assert_eq!(words, [0x155, 0x0aa, 0x1ff]);
}

#[test]
fn split_pairs_are_preserved_across_usb_packets() {
    let mut decoder = NineBitPairDecoder::new();
    let mut words = [0u16; 2];

    assert_eq!(decoder.decode(&[0x12], &mut words), 0);
    assert_eq!(decoder.decode(&[1, 0x34, 0], &mut words), 2);
    assert_eq!(words, [0x112, 0x034]);
}

#[test]
fn dropped_bytes_resynchronize_on_a_valid_bit_byte() {
    let mut decoder = NineBitPairDecoder::new();
    let mut words = [0u16; 3];

    let count = decoder.decode(&[0x55, 0xaa, 0, 0xff, 1], &mut words);
    assert_eq!(&words[..count], &[0x0aa, 0x1ff]);
}

#[test]
fn responses_drop_only_the_ninth_bit() {
    assert_eq!(response_byte(0x1a5), 0xa5);
    assert_eq!(response_byte(0x0a5), 0xa5);
}

#[test]
fn documented_words_are_decoded() {
    let mut decoder = NineBitPairDecoder::default();
    let mut words = [0u16; 32];
    let count = decoder.decode(&[0x55, 0x01, 0xaa, 0x00], &mut words);
    assert_eq!(&words[..count], &[0x155, 0x0aa]);
}

#[test]
fn every_word_survives_the_trip() {
    let mut decoder = NineBitPairDecoder::new();
    let mut words = [0u16; 2];
    for word in 0..512u16 {
        let packet = [(word & 0xff) as u8, (word >> 8) as u8];
        assert_eq!(decoder.decode(&packet, &mut words), 1);
        assert_eq!(words[0], word);
    }
}

#[test]
fn words_beyond_the_output_are_untouched() {
    let mut decoder = NineBitPairDecoder::new();
    let mut words = [0x777u16; 4];
    assert_eq!(decoder.decode(&[0x10, 1], &mut words), 1);
    assert_eq!(words, [0x110, 0x777, 0x777, 0x777]);
}

#[test]
fn a_single_byte_without_room_is_held_and_more_are_dropped() {
    let mut decoder = NineBitPairDecoder::new();
    let mut words = [0u16; 1];
    assert_eq!(decoder.decode(&[0x11, 0, 0x22], &mut words), 1);
    assert_eq!(words, [0x011]);
    assert_eq!(decoder.decode(&[1], &mut words), 1);
    assert_eq!(words, [0x122]);

    assert_eq!(decoder.decode(&[0x11, 0, 0x22, 0x33], &mut words), 1);
    assert_eq!(decoder.decode(&[1], &mut words), 0);
    assert_eq!(decoder.decode(&[0], &mut words), 1);
    assert_eq!(words, [0x001]);
}

#[test]
fn a_held_byte_survives_a_call_without_room() {
    let mut decoder = NineBitPairDecoder::new();
    let mut none: [u16; 0] = [];
    let mut words = [0u16; 1];
    assert_eq!(decoder.decode(&[0x44], &mut words), 0);
    assert_eq!(decoder.decode(&[], &mut words), 0);
    assert_eq!(decoder.decode(&[1], &mut none), 0);
    assert_eq!(decoder.decode(&[1], &mut words), 1);
    assert_eq!(words, [0x144]);
}

#[test]
fn packets_may_be_cut_anywhere() {
    let stream = [0x55, 1, 0x00, 1, 0x01, 0, 0xaa, 0xbb, 0, 0x02, 1];
    let mut whole = [0u16; 32];
    let expected = NineBitPairDecoder::new().decode(&stream, &mut whole);
    assert_eq!(&whole[..expected], &[0x155, 0x100, 0x001, 0x0bb, 0x102]);
    for cut in 0..=stream.len() {
        let mut decoder = NineBitPairDecoder::new();
        let mut first = [0u16; 32];
        let mut second = [0u16; 32];
        let head = decoder.decode(&stream[..cut], &mut first);
        let tail = decoder.decode(&stream[cut..], &mut second);
        let joined = [&first[..head], &second[..tail]].concat();
        assert_eq!(joined, whole[..expected].to_vec());
    }
}

#[test]
fn a_stray_byte_is_shaken_off_by_the_first_large_low_byte() {
    let mut decoder = NineBitPairDecoder::new();
    let mut words = [0u16; 8];
    // Words 0x001, 0x100 and 0x155 behind a stray low byte.
    let count = decoder.decode(&[0x99, 0x01, 0, 0x00, 1, 0x55, 1, 0x66, 0], &mut words);
    assert_eq!(&words[..count], &[0x199, 0x000, 0x155, 0x066]);
}

#[test]
fn a_full_packet_fits_even_behind_a_held_byte() {
    let mut decoder = NineBitPairDecoder::new();
    let mut words = [0u16; 32];
    assert_eq!(host_to_asic(&mut decoder, HostEvent::Packet(&[0x42]), &mut words), Ok(0));
    let mut packet = [0u8; 64];
    for (index, byte) in packet.iter_mut().enumerate() {
        *byte = if index % 2 == 0 { 1 } else { 0x80 };
    }
    assert_eq!(host_to_asic(&mut decoder, HostEvent::Packet(&packet), &mut words), Ok(32));
    assert_eq!(words[0], 0x142);
    assert_eq!(words[31], 0x180);
    assert_eq!(host_to_asic(&mut decoder, HostEvent::Packet(&[0]), &mut words), Ok(1));
    assert_eq!(words[0], 0x080);
}

#[test]
fn the_host_stream_ends_with_its_endpoint_or_its_terminal() {
    let mut decoder = NineBitPairDecoder::new();
    let mut words = [0u16; 32];
    let gone = Err(UartTaskError::Disconnected);
    let failed = HostEvent::Failed(EndpointError::Disabled);
    assert_eq!(host_to_asic(&mut decoder, failed, &mut words), gone);
    let dropped = HostEvent::ControlChanged { dtr: false };
    assert_eq!(host_to_asic(&mut decoder, dropped, &mut words), gone);
    let coding = HostEvent::ControlChanged { dtr: true };
    assert_eq!(host_to_asic(&mut decoder, coding, &mut words), Ok(0));
    assert_eq!(UartTaskError::from_endpoint(EndpointError::Disabled), UartTaskError::Disconnected);
}

#[test]
fn any_number_of_packets_forms_one_stream() {
    let stream: Vec<u8> = (0..300u32).map(|index| [0x55, 1, 0x80, 0, 0xaa, 0x01, 0x10][index as usize % 7]).collect();
    let mut whole = [0u16; 400];
    let count = NineBitPairDecoder::new().decode(&stream, &mut whole);
    for length in [1, 2, 3, 7, 63, 64] {
        let mut decoder = NineBitPairDecoder::new();
        let mut arrived = Vec::new();
        for packet in stream.chunks(length) {
            let mut words = [0u16; 32];
            let taken = host_to_asic(&mut decoder, HostEvent::Packet(packet), &mut words).unwrap();
            arrived.extend_from_slice(&words[..taken]);
        }
        assert_eq!(arrived, whole[..count].to_vec());
    }
}
