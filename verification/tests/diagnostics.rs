use bitaxe_birds_raw::diagnostics::{
    encode_info, encode_rx_stats, encode_safety_status, SafetySnapshot, EVIDENCE_FAULT_CLEAR,
    EVIDENCE_LEASE_VALID, EVIDENCE_OUTPUTS_SAFE, FIRMWARE_VERSION, RUNTIME_BAD_TRIP_INPUT,
    RUNTIME_GOOD_CONTROLLED, SAFETY_FAULT_NONE, SAFETY_STATE_CONTROLLED,
};

#[test]
fn info_matches_the_esp_schema() {
    let mut payload = [0; 67];
    let length = encode_info(&mut payload).unwrap();

    assert_eq!(&payload[..4], &[1, 1, 0, FIRMWARE_VERSION.len() as u8]);
    assert_eq!(&payload[4..length], FIRMWARE_VERSION.as_bytes());
}

#[test]
fn rx_stats_match_the_esp_schema() {
    assert_eq!(encode_rx_stats(0x1234_5678, 0x90ab_cdef), [1, 0x78, 0x56, 0x34, 0x12, 0xef, 0xcd, 0xab, 0x90]);
}

#[test]
fn safe_status_is_coherent_and_lease_free() {
    let payload = encode_safety_status(SafetySnapshot {
        five_volt_enabled: false,
        asic_reset_asserted: true,
        fan_percent: 100,
        trip_input_asserted: false,
    });

    assert_eq!(payload, [1, 0, 0, 0, 0, 0x80, 0x0f, 0, 0x0f, 0, 0, 0, 0, 0, 0x06, 100, 0]);
}

#[test]
fn active_outputs_report_a_controlled_state() {
    let payload = encode_safety_status(SafetySnapshot {
        five_volt_enabled: true,
        asic_reset_asserted: false,
        fan_percent: 50,
        trip_input_asserted: false,
    });

    assert_eq!(payload[2], SAFETY_STATE_CONTROLLED);
    assert_eq!(payload[4], RUNTIME_GOOD_CONTROLLED);
    assert_eq!(payload[8], 0x0e);
    assert_eq!(&payload[10..14], &[0, 0, 0, 0]);
    assert_eq!(&payload[14..], &[0x01, 50, 0]);
}

#[test]
fn active_trip_is_visible_without_inventing_a_latched_fault() {
    let payload = encode_safety_status(SafetySnapshot {
        five_volt_enabled: false,
        asic_reset_asserted: true,
        fan_percent: 100,
        trip_input_asserted: true,
    });

    assert_eq!(payload[3], SAFETY_FAULT_NONE);
    assert_eq!(payload[4], RUNTIME_BAD_TRIP_INPUT);
    assert_eq!(payload[8], EVIDENCE_OUTPUTS_SAFE as u8 | EVIDENCE_LEASE_VALID as u8 | EVIDENCE_FAULT_CLEAR as u8);
    assert_eq!(payload[16], 1);
}

#[test]
fn info_needs_room_for_the_whole_payload() {
    let mut short = [0xeeu8; 25];
    assert_eq!(encode_info(&mut short), None);
    assert_eq!(short, [0xeeu8; 25]);

    let mut exact = [0xeeu8; 26];
    assert_eq!(encode_info(&mut exact), Some(26));
    assert_eq!(&exact, b"\x01\x01\x00\x16bitaxe-birds-raw-0.1.0");

    let mut long = [0xeeu8; 28];
    assert_eq!(encode_info(&mut long), Some(26));
    assert_eq!(&long[26..], &[0xee, 0xee]);
}

#[test]
fn fan_targets_above_full_speed_count_as_full_speed() {
    let payload = encode_safety_status(SafetySnapshot {
        five_volt_enabled: false,
        asic_reset_asserted: true,
        fan_percent: 250,
        trip_input_asserted: false,
    });
    assert_eq!(payload[15], 100);
    assert_eq!(payload[14], 0x06);
    assert_eq!(payload[2], 0);
}

#[test]
fn counters_can_be_read_back_from_the_payload() {
    for value in [0u32, 1, 0xff, 0x100, 0xffff_ffff, 0x8000_0001] {
        let payload = encode_rx_stats(value, !value);
        assert_eq!(u32::from_le_bytes([payload[1], payload[2], payload[3], payload[4]]), value);
        assert_eq!(u32::from_le_bytes([payload[5], payload[6], payload[7], payload[8]]), !value);
    }
}

#[test]
fn the_parts_of_a_status_agree() {
    for bits in 0..8u8 {
        for fan_percent in [0u8, 50, 99, 100, 101, 255] {
            let snapshot = SafetySnapshot {
                five_volt_enabled: bits & 1 != 0,
                asic_reset_asserted: bits & 2 != 0,
                fan_percent,
                trip_input_asserted: bits & 4 != 0,
            };
            let payload = encode_safety_status(snapshot);
            let safe = bits & 3 == 2 && fan_percent >= 100;
            assert_eq!(payload[2] == 0, safe);
            assert_eq!(payload[8] & 1 == 1, safe);
            assert_eq!(payload[14] == 6, safe);
            assert_eq!(payload[4] == 0x82, snapshot.trip_input_asserted);
            assert_eq!(payload[8] & 4 == 0, snapshot.trip_input_asserted);
        }
    }
}
