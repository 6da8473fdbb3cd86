use bitaxe_birds_raw::bridge::{CommandError as BridgeError, Request};
use bitaxe_birds_raw::control::{adc, fan, gpio, i2c, relay, system, Command, CommandError};
use bitaxe_birds_raw::payload::copy_payload;

#[test]
fn documented_gpio_frames_are_read() {
    let frames: [(&[u8], gpio::Command); 6] = [
        (&[0x07, 0, 0, 0, 6, 0, 1], gpio::Command::SetAsicResetn { level: true }),
        (&[0x07, 0, 0, 0, 6, 1, 1], gpio::Command::Set5vEn { level: true }),
        (&[0x06, 0, 0, 0, 6, 2], gpio::Command::GetAsicRst),
        (&[0x06, 0, 0, 0, 6, 3], gpio::Command::GetAsicTrip),
        (&[0x07, 0, 0, 0, 6, 4, 1], gpio::Command::SetVrEn { level: true }),
        (&[0x06, 0, 0, 0, 6, 5], gpio::Command::GetVrPgood),
    ];
    for (frame, command) in frames {
        assert_eq!(Command::from_frame(frame), Ok(Command::Gpio(command)));
    }
}

#[test]
fn documented_fan_and_system_frames_are_read() {
    let half = Ok(Command::Fan(fan::Command::SetSpeed(50)));
    assert_eq!(Command::from_frame(&[7, 0, 0, 0, 9, 0x10, 0x32]), half);
    let full = Ok(Command::Fan(fan::Command::SetSpeed(100)));
    assert_eq!(Command::from_frame(&[7, 0, 0, 0, 9, 0x10, 0x64]), full);
    let tach = Ok(Command::Fan(fan::Command::GetTach));
    assert_eq!(Command::from_frame(&[6, 0, 0, 0, 9, 0x20]), tach);
    let info = Ok(Command::System(system::Command::Info));
    assert_eq!(Command::from_frame(&[6, 0, 0, 0, 0, 1]), info);
    let stats = Ok(Command::System(system::Command::RxStats));
    assert_eq!(Command::from_frame(&[6, 0, 0, 0, 0, 2]), stats);
    let status = Ok(Command::System(system::Command::SafetyStatus));
    assert_eq!(Command::from_frame(&[6, 0, 0, 0, 0, 0x10]), status);
    assert_eq!(Command::from_frame(&[6, 0, 0, 0, 1, 0x10]), Err(CommandError::Invalid));
}

#[test]
fn gpio_bytes_name_a_line_and_perhaps_a_level() {
    let commands: [(&[u8], gpio::Command); 10] = [
        (&[0], gpio::Command::GetAsicResetn),
        (&[0, 0], gpio::Command::SetAsicResetn { level: false }),
        (&[1], gpio::Command::Get5vEn),
        (&[1, 0], gpio::Command::Set5vEn { level: false }),
        (&[2], gpio::Command::GetAsicRst),
        (&[2, 255], gpio::Command::SetAsicRst { level: true }),
        (&[3], gpio::Command::GetAsicTrip),
        (&[4], gpio::Command::GetVrEn),
        (&[4, 0], gpio::Command::SetVrEn { level: false }),
        (&[5], gpio::Command::GetVrPgood),
    ];
    for (bytes, command) in commands {
        assert_eq!(gpio::Command::from_bytes(bytes), Ok(command));
    }
    let invalid: [&[u8]; 6] = [&[], &[6], &[3, 1], &[5, 0], &[1, 1, 1], &[6, 0]];
    for bytes in invalid {
        assert_eq!(gpio::Command::from_bytes(bytes), Err(CommandError::Invalid));
    }
}

#[test]
fn fan_bytes_stop_at_full_speed() {
    assert_eq!(fan::Command::from_bytes(&[0x10, 100]), Ok(fan::Command::SetSpeed(100)));
    assert_eq!(fan::Command::from_bytes(&[0x10, 0]), Ok(fan::Command::SetSpeed(0)));
    let invalid: [&[u8]; 5] = [&[], &[0x10], &[0x10, 101], &[0x20, 0], &[0x30]];
    for bytes in invalid {
        assert_eq!(fan::Command::from_bytes(bytes), Err(CommandError::Invalid));
    }
}

#[test]
fn system_bytes_are_a_single_code() {
    let invalid: [&[u8]; 4] = [&[], &[0], &[1, 0], &[0x11]];
    for bytes in invalid {
        assert_eq!(system::Command::from_bytes(bytes), Err(CommandError::Invalid));
    }
    assert_eq!(system::Command::Info.request(), Request::System { command: 0x01 });
    assert_eq!(system::Command::RxStats.request(), Request::System { command: 0x02 });
    assert_eq!(system::Command::SafetyStatus.request(), Request::System { command: 0x10 });
}

#[test]
fn the_reset_alias_goes_the_way_of_the_reset() {
    for level in [false, true] {
        let request = Request::Gpio { command: 0x02, level: Some(level) };
        assert_eq!(gpio::Command::SetAsicResetn { level }.route(), gpio::Route::Bridge(request));
        assert_eq!(gpio::Command::SetAsicRst { level }.route(), gpio::Route::Bridge(request));
    }
    let read = gpio::Route::Bridge(Request::Gpio { command: 0x02, level: None });
    assert_eq!(gpio::Command::GetAsicResetn.route(), read);
    assert_eq!(gpio::Command::GetAsicRst.route(), read);
}

#[test]
fn commands_are_routed() {
    let enable = Request::Gpio { command: 0x01, level: Some(true) };
    assert_eq!(gpio::Command::Set5vEn { level: true }.route(), gpio::Route::Bridge(enable));
    let rail = Request::Gpio { command: 0x01, level: None };
    assert_eq!(gpio::Command::Get5vEn.route(), gpio::Route::Bridge(rail));
    let trip = Request::Gpio { command: 0x03, level: None };
    assert_eq!(gpio::Command::GetAsicTrip.route(), gpio::Route::Bridge(trip));
    assert_eq!(gpio::Command::GetVrEn.route(), gpio::Route::ReadVrEnable);
    assert_eq!(gpio::Command::GetVrPgood.route(), gpio::Route::ReadVrPgood);
    let off = gpio::Route::SetVrEnable { level: false };
    assert_eq!(gpio::Command::SetVrEn { level: false }.route(), off);
    let speed = Request::Fan { command: 0x10, speed: Some(40) };
    assert_eq!(fan::Command::SetSpeed(40).request(), speed);
    assert_eq!(fan::Command::GetTach.request(), Request::Fan { command: 0x20, speed: None });
}

#[test]
fn errors_are_encoded_as_documented() {
    assert_eq!(CommandError::Timeout.encode().as_slice(), &[0x10]);
    assert_eq!(CommandError::Invalid.encode().as_slice(), &[0x11]);
    assert_eq!(CommandError::Denied.encode().as_slice(), &[0x12]);
    assert_eq!(CommandError::Fault.encode().as_slice(), &[0x13]);
    assert_eq!(CommandError::BufferOverflow.encode().as_slice(), &[0xff, 0x42, 0x75, 0x66]);
    assert_eq!(CommandError::from_bridge(BridgeError::Invalid), CommandError::Invalid);
    assert_eq!(CommandError::from_bridge(BridgeError::Denied), CommandError::Denied);
    assert_eq!(CommandError::from_bridge(BridgeError::Fault), CommandError::Fault);
}

#[test]
fn levels_are_reported_as_one_byte() {
    assert_eq!(gpio::level_payload(false).as_slice(), &[0]);
    assert_eq!(gpio::level_payload(true).as_slice(), &[1]);
}

#[test]
fn documented_i2c_and_adc_frames_are_read() {
    let write = i2c::Command::Write { address: 0x4f, write_length: 1 };
    assert_eq!(Command::from_frame(&[8, 0, 1, 0, 5, 0x20, 0x4f, 0xde]), Ok(Command::I2c(write)));
    let read = i2c::Command::Read { address: 0x4c, read_length: 1 };
    assert_eq!(Command::from_frame(&[8, 0, 1, 0, 5, 0x30, 0x4c, 0x01]), Ok(Command::I2c(read)));
    let both = i2c::Command::ReadWrite { address: 0x32, write_length: 1, read_length: 2 };
    let frame = [9, 0, 1, 0, 5, 0x40, 0x32, 0xfe, 0x02];
    assert_eq!(Command::from_frame(&frame), Ok(Command::I2c(both)));
    assert_eq!(frame[5 + i2c::WRITE_OFFSET], 0xfe);
    let first = Ok(Command::Adc(adc::Command::ReadDomain1));
    assert_eq!(Command::from_frame(&[6, 0, 0, 0, 7, 0x50]), first);
    let second = Ok(Command::Adc(adc::Command::ReadDomain2));
    assert_eq!(Command::from_frame(&[6, 0, 0, 0, 7, 0x51]), second);
    assert_eq!(adc::Command::from_bytes(&[0x52]), Ok(adc::Command::ReadDomain3));
}

#[test]
fn malformed_i2c_and_adc_commands_are_invalid() {
    let invalid: [&[u8]; 7] = [&[], &[0x20], &[0x30, 1], &[0x30, 1, 2, 3], &[0x40], &[0x40, 1], &[0x50, 1, 2]];
    for bytes in invalid {
        assert_eq!(i2c::Command::from_bytes(bytes), Err(CommandError::Invalid));
    }
    let invalid: [&[u8]; 4] = [&[], &[0x4f], &[0x53], &[0x50, 0]];
    for bytes in invalid {
        assert_eq!(adc::Command::from_bytes(bytes), Err(CommandError::Invalid));
    }
}

#[test]
fn gpio_commands_are_answered_with_what_came_of_them() {
    let answer = gpio::Outcome::Bridge(Ok(copy_payload(&[1]))).answer();
    assert_eq!(answer.unwrap().as_slice(), &[1]);
    let refused = gpio::Outcome::Bridge(Err(BridgeError::Denied)).answer();
    assert_eq!(refused, Err(CommandError::Denied));
    for level in [false, true] {
        let answer = gpio::Outcome::Level(level).answer();
        assert_eq!(answer.unwrap().as_slice(), &[level as u8]);
        let command = gpio::Command::SetVrEn { level };
        assert_eq!(command.route(), gpio::Route::SetVrEnable { level });
    }
}

#[test]
fn results_of_the_bridge_are_relayed() {
    assert_eq!(relay(Ok(copy_payload(&[3, 4]))).unwrap().as_slice(), &[3, 4]);
    assert_eq!(relay(Err(BridgeError::Fault)), Err(CommandError::Fault));
    assert_eq!(relay(Err(BridgeError::Invalid)), Err(CommandError::Invalid));
}
