use std::collections::VecDeque;
use std::sync::mpsc;

use vt_emulator::lk201::{
    ctrl_char_bytes, ctrl_special_key_bytes, escape_bytes, shift_ctrl_special_key_bytes,
    shift_special_key_bytes, special_key_bytes, KeyboardType,
    AutoRepeatRegister, Division, KeyMode, LK201Command, LK201Response, Led, PowerUpError, SpecialKey,
    Volume, LK201,
};

fn test_parse(input: &[u8], expected: LK201Command) {
    let queue = VecDeque::from_iter(input.iter().copied());
    let command = LK201Command::try_from(&queue).unwrap();
    assert_eq!(command, expected);
    assert_eq!(input.len(), command.len());
}

#[test]
fn test_mode_commands() {
    test_parse(
        &[0x0A, 0x80],
        LK201Command::SetModeWithAutoRepeat {
            division: Division(1),
            mode: KeyMode::AutoDown,
            register: AutoRepeatRegister(0),
        },
    );
    test_parse(
        &[0x12, 0x81],
        LK201Command::SetModeWithAutoRepeat {
            division: Division(2),
            mode: KeyMode::AutoDown,
            register: AutoRepeatRegister(1),
        },
    );
    test_parse(
        &[0x72, 0x82],
        LK201Command::SetModeWithAutoRepeat {
            division: Division(14),
            mode: KeyMode::AutoDown,
            register: AutoRepeatRegister(2),
        },
    );
    test_parse(
        &[0xA2],
        LK201Command::SetMode {
            mode: KeyMode::AutoDown,
            division: Division(4),
        },
    );
}

#[test]
fn test_autorepeat_commands() {
    test_parse(
        &[0x78, 0x64, 0x9E],
        LK201Command::SetAutoRepeat {
            register: AutoRepeatRegister(0),
            timeout: 0x64,
            rate: 0x1E,
        },
    );
    test_parse(
        &[0x7A, 0x64, 0x9E],
        LK201Command::SetAutoRepeat {
            register: AutoRepeatRegister(1),
            timeout: 0x64,
            rate: 0x1E,
        },
    );
    test_parse(
        &[0x7C, 0x64, 0x9E],
        LK201Command::SetAutoRepeat {
            register: AutoRepeatRegister(2),
            timeout: 0x64,
            rate: 0x1E,
        },
    );
}

#[test]
fn test_led_commands() {
    test_parse(&[0x13, 0x84], LK201Command::LedEnable(Led::new(0x84)));
    test_parse(&[0x11, 0x88], LK201Command::LedDisable(Led::new(0x88)));
    test_parse(&[0x13, 0x8F], LK201Command::LedEnable(Led::new(0x8F)));
    test_parse(&[0x13, 0x81], LK201Command::LedEnable(Led::new(0x81)));
    test_parse(&[0x13, 0x80], LK201Command::LedEnable(Led::new(0x80)));
    test_parse(&[0x13, 0x83], LK201Command::LedEnable(Led::new(0x83)));
    test_parse(&[0x13, 0x85], LK201Command::LedEnable(Led::new(0x85)));
    test_parse(&[0x13, 0x86], LK201Command::LedEnable(Led::new(0x86)));
    test_parse(&[0x13, 0x8C], LK201Command::LedEnable(Led::new(0x8C)));
    test_parse(&[0x11, 0x8D], LK201Command::LedDisable(Led::new(0x8D)));
}

#[test]
fn test_bell_and_click_commands() {
    test_parse(&[0x23, 0x80], LK201Command::BellEnable(Volume(0)));
    test_parse(&[0xA1], LK201Command::BellDisable);
    test_parse(&[0xA7], LK201Command::RingBell);
    test_parse(&[0x1B, 0x80], LK201Command::KeyClickEnable(Volume(0)));
    test_parse(&[0x99], LK201Command::KeyClickDisable);
    test_parse(&[0xBB], LK201Command::CtrlKeyClickEnable);
    test_parse(&[0xB9], LK201Command::CtrlKeyClickDisable);
}

#[test]
fn test_control_commands() {
    test_parse(&[0xFD], LK201Command::PowerUp);
    test_parse(&[0xAB], LK201Command::RequestId);
    test_parse(
        &[0xE3],
        LK201Command::EnableRepeat {
            division: Division(0),
        },
    );
    test_parse(
        &[0xE1],
        LK201Command::DisableRepeat {
            division: Division(0),
        },
    );
    test_parse(&[0xD9], LK201Command::RepeatToDown);
    test_parse(&[0xD1], LK201Command::TempNoRepeat);
    test_parse(&[0xD3], LK201Command::SetDefaults);
    test_parse(&[0xCB], LK201Command::TestMode);
    test_parse(&[0x8B], LK201Command::Resume);
    test_parse(&[0x89], LK201Command::Inhibit);
    test_parse(
        &[0x80],
        LK201Command::SetMode {
            mode: KeyMode::Down,
            division: Division(0),
        },
    );
}

#[test]
fn test_unknown_commands() {
    test_parse(&[0x0D], LK201Command::Unknown(0x0D));
    test_parse(&[0xFF], LK201Command::Unknown(0xFF));
    test_parse(&[0x01], LK201Command::Unknown(0x01));
    test_parse(&[0x55], LK201Command::Unknown(0x55));
    test_parse(&[0xE9, 0x12, 0x34], LK201Command::Unknown3(0xE9, 0x12, 0x34));

    let cmd = LK201Command::Unknown(0x0D);
    let resp = cmd.response().unwrap();
    assert_eq!(resp, LK201Response::InputError);
    assert_eq!(resp.to_bytes(), vec![0xB6]);
}

#[test]
fn test_command_responses() {
    let cmd = LK201Command::PowerUp;
    let resp = cmd.response().unwrap();
    assert_eq!(resp.to_bytes(), vec![0x01, 0x00, 0x00, 0x00]);

    let cmd = LK201Command::RequestId;
    let resp = cmd.response().unwrap();
    assert_eq!(resp.to_bytes(), vec![0x01, 0x01]);

    let cmd = LK201Command::SetMode {
        mode: KeyMode::AutoDown,
        division: Division(1),
    };
    let resp = cmd.response().unwrap();
    assert_eq!(resp.to_bytes(), vec![0xBA]);

    let cmd = LK201Command::SetModeWithAutoRepeat {
        mode: KeyMode::AutoDown,
        division: Division(1),
        register: AutoRepeatRegister(0),
    };
    let resp = cmd.response().unwrap();
    assert_eq!(resp.to_bytes(), vec![0xBA]);

    let cmd = LK201Command::EnableRepeat {
        division: Division(13),
    };
    let resp = cmd.response().unwrap();
    assert_eq!(resp.to_bytes(), vec![0xBA]);

    let cmd = LK201Command::DisableRepeat {
        division: Division(13),
    };
    let resp = cmd.response().unwrap();
    assert_eq!(resp.to_bytes(), vec![0xBA]);

    let cmd = LK201Command::RepeatToDown;
    let resp = cmd.response().unwrap();
    assert_eq!(resp.to_bytes(), vec![0xBA]);

    let cmd = LK201Command::TestMode;
    let resp = cmd.response().unwrap();
    assert_eq!(resp.to_bytes(), vec![0xB8]);

    let cmd = LK201Command::Inhibit;
    let resp = cmd.response().unwrap();
    assert_eq!(resp.to_bytes(), vec![0xB7]);

    let cmd = LK201Command::Unknown(0xFF);
    let resp = cmd.response().unwrap();
    assert_eq!(resp.to_bytes(), vec![0xB6]);

    assert!(LK201Command::LedEnable(Led::new(0x84)).response().is_none());
    assert!(LK201Command::BellEnable(Volume(4)).response().is_none());
    assert!(LK201Command::KeyClickDisable.response().is_none());
    assert!(LK201Command::SetDefaults.response().is_none());
    assert!(LK201Command::Resume.response().is_none());
}

#[test]
fn test_response_serialization() {
    assert_eq!(LK201Response::ModeChangeAck.to_bytes(), vec![0xBA]);
    assert_eq!(LK201Response::KeyboardLockAck.to_bytes(), vec![0xB7]);
    assert_eq!(LK201Response::TestModeAck.to_bytes(), vec![0xB8]);
    assert_eq!(LK201Response::InputError.to_bytes(), vec![0xB6]);
    assert_eq!(LK201Response::OutputError.to_bytes(), vec![0xB5]);
    assert_eq!(LK201Response::Repeat.to_bytes(), vec![0xB4]);
    assert_eq!(LK201Response::AllUp.to_bytes(), vec![0xB3]);
    assert_eq!(LK201Response::KeyDown(0x42).to_bytes(), vec![0x42]);
    assert_eq!(LK201Response::PrefixKeyDown(0x42).to_bytes(), vec![0xB9, 0x42]);
}

#[test]
fn test_full_sequence() {
    let cases: [(u8, u8, u8, u8); 8] = [
        (0x0A, 0x80, 1, 0),
        (0x1A, 0x80, 3, 0),
        (0x3A, 0x80, 7, 0),
        (0x42, 0x81, 8, 1),
        (0x4A, 0x82, 9, 2),
        (0x5A, 0x82, 11, 2),
        (0x62, 0x82, 12, 2),
        (0x6A, 0x82, 13, 2),
    ];
    for (b0, b1, div, reg) in cases {
        test_parse(
            &[b0, b1],
            LK201Command::SetModeWithAutoRepeat {
                division: Division(div),
                mode: KeyMode::AutoDown,
                register: AutoRepeatRegister(reg),
            },
        );
    }
}

#[test]
fn partial_commands_stay_incomplete() {
    for prefix in [&[0x13u8][..], &[0x78, 0x64][..], &[0x0A][..], &[0xE9, 0x12][..], &[][..]] {
        let queue = VecDeque::from_iter(prefix.iter().copied());
        assert!(LK201Command::parse(&queue).is_err());
    }
    let queue = VecDeque::from_iter([0x13u8, 0x84, 0xFD]);
    let command = LK201Command::parse(&queue).unwrap();
    assert_eq!(command, LK201Command::LedEnable(Led::new(0x84)));
    assert_eq!(command.len(), 2);
}

#[test]
fn keyboard_answers_commands_in_order() {
    let mut kbd = {
        let (send, _recv_host) = mpsc::channel::<u8>();
        let (_send_host, recv) = mpsc::channel::<u8>();
        LK201::new(send, recv)
    };
    assert_eq!(kbd.process(&vec![0xFD]), vec![0x01, 0x00, 0x00, 0x00]);
    assert_eq!(kbd.process(&vec![0xAB]), vec![0x01, 0x01]);
    assert_eq!(kbd.process(&vec![0xCB]), vec![0xB8]);
    assert_eq!(kbd.process(&vec![0x0D]), vec![0xB6]);
    assert_eq!(kbd.process(&vec![0x89]), vec![0xB7]);
    assert_eq!(kbd.process(&vec![0x13]), Vec::<u8>::new());
    assert_eq!(kbd.process(&vec![0x84]), Vec::<u8>::new());
    assert_eq!(kbd.process(&vec![0x78, 0x64]), Vec::<u8>::new());
    assert_eq!(kbd.process(&vec![0x9E]), vec![0xBA]);
    assert_eq!(kbd.process(&vec![0x8B, 0xD3]), Vec::<u8>::new());
}

#[test]
fn keyboard_tick_uses_channels() {
    let (send, recv_host) = mpsc::channel::<u8>();
    let (send_host, recv) = mpsc::channel::<u8>();
    let mut kbd = LK201::new(send, recv);
    send_host.send(0xFD).unwrap();
    kbd.tick();
    let got: Vec<u8> = recv_host.try_iter().collect();
    assert_eq!(got, vec![0x01, 0x00, 0x00, 0x00]);
    send_host.send(0xAB).unwrap();
    kbd.tick();
    let got: Vec<u8> = recv_host.try_iter().collect();
    assert_eq!(got, vec![0x01, 0x01]);
}

#[test]
fn sender_sequences() {
    let (send, recv_host) = mpsc::channel::<u8>();
    let (_send_host, recv) = mpsc::channel::<u8>();
    let kbd = LK201::new(send, recv);
    let sender = kbd.sender();
    sender.send_special_key(SpecialKey::F1);
    sender.send_ctrl_special_key(SpecialKey::Up);
    sender.send_shift_special_key(SpecialKey::Tab);
    sender.send_shift_ctrl_special_key(SpecialKey::Return);
    sender.send_escape();
    assert_eq!(sender.send_char('a'), Ok(()));
    assert_eq!(sender.send_char('A'), Ok(()));
    assert_eq!(sender.send_char('\u{7f}'), Err(()));
    assert_eq!(sender.send_ctrl_char('c'), Ok(()));
    let got: Vec<u8> = recv_host.try_iter().collect();
    assert_eq!(
        got,
        vec![
            0x56, 0xAF, 0xAA, 0xB3, 0xAE, 0xBE, 0xB3, 0xAF, 0xAE, 0xBD, 0xB3, 0xAF, 0xCB, 0xB3, 0xC2, 0xAE,
            0xC2, 0xB3, 0xAF, 0xCE, 0xB3
        ]
    );
}

#[test]
fn small_types() {
    assert!(Led::new(0x8F).is_all());
    assert!(Led::new(0x81).is_wait());
    assert!(!Led::new(0x81).is_hold());
    assert!(Led::new(0x82).is_compose());
    assert!(Led::new(0x84).is_lock());
    assert_eq!(Volume::new(8), None);
    assert_eq!(Volume::new(3).unwrap().as_param_byte(), 0x83);
    assert_eq!(Division::new(15), None);
    assert_eq!(AutoRepeatRegister::new(4), None);
    assert_eq!(PowerUpError::from_code(0x3D), PowerUpError::KeyDownError);
    assert_eq!(PowerUpError::Unknown(7).code(), 7);
    assert_eq!(KeyMode::UpDown.code(), 0x86);
    assert_eq!(vt_emulator::lk201::KeyboardType::from_id(2), Some(vt_emulator::lk201::KeyboardType::LK401));
    assert_eq!(vt_emulator::lk201::KeyboardType::from_id(5), None);
}

#[test]
fn power_up_error_codes() {
    assert_eq!(PowerUpError::from(0x3Eu8), PowerUpError::PowerError);
    assert_eq!(PowerUpError::from(0x00u8), PowerUpError::NoError);
    assert_eq!(PowerUpError::from(0x42u8), PowerUpError::Unknown(0x42));
    assert_eq!(u8::from(PowerUpError::KeyDownError), 0x3D);
    assert_eq!(u8::from(PowerUpError::Unknown(9)), 9);
}

#[test]
fn buffered_command_handled_without_new_bytes() {
    let (send, _recv_host) = mpsc::channel::<u8>();
    let (_send_host, recv) = mpsc::channel::<u8>();
    let mut kbd = LK201::new(send, recv);
    assert_eq!(kbd.process(&vec![0xFD, 0xAB]), vec![0x01, 0x00, 0x00, 0x00]);
    assert_eq!(kbd.process(&vec![]), vec![0x01, 0x01]);
    assert_eq!(kbd.process(&vec![]), Vec::<u8>::new());
}

#[test]
fn repeat_command_range() {
    let q = |b: u8| LK201Command::try_from(&VecDeque::from(vec![b])).unwrap();
    assert_eq!(q(0xE5), LK201Command::DisableRepeat { division: Division(0) });
    assert_eq!(q(0xE7), LK201Command::EnableRepeat { division: Division(0) });
    assert_eq!(q(0xEB), LK201Command::EnableRepeat { division: Division(0) });
    assert_eq!(q(0xED), LK201Command::DisableRepeat { division: Division(0) });
    assert_eq!(q(0xEF), LK201Command::Unknown(0xEF));
    assert_eq!(q(0xE7).response().unwrap().to_bytes(), vec![0xBA]);
}

#[test]
fn key_byte_sequences() {
    assert_eq!(special_key_bytes(SpecialKey::Help), vec![0x7c]);
    assert_eq!(ctrl_special_key_bytes(SpecialKey::F1), vec![0xAF, 0x56, 0xB3]);
    assert_eq!(shift_special_key_bytes(SpecialKey::Down), vec![0xAE, 0xA9, 0xB3]);
    assert_eq!(shift_ctrl_special_key_bytes(SpecialKey::Up), vec![0xAF, 0xAE, 0xAA, 0xB3]);
    assert_eq!(escape_bytes(), vec![0xAF, 0xCB, 0xB3]);
    assert_eq!(ctrl_char_bytes('c'), Some(vec![0xAF, 0xCE, 0xB3]));
    assert_eq!(ctrl_char_bytes('\u{1}'), None);
    assert_eq!(KeyboardType::LK443.id(), 3);
}
