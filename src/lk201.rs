//! The LK201 keyboard: commands from the terminal arrive as bytes, are parsed
//! once complete, and are acknowledged; key events travel the other way as
//! scan codes.
use vstd::prelude::*;

use std::collections::VecDeque;
use std::sync::mpsc::{Receiver, Sender};

use crate::channel::{clone_sender, drain, send};

verus! {

/// Caps Lock key.
pub const KEY_LOCK: u8 = 0xB0;

/// Shift key; also the prefix of a shifted key.
pub const KEY_SHIFT: u8 = 0xAE;

/// Control key; also the prefix of a control key.
pub const KEY_CTRL: u8 = 0xAF;

/// Compose key.
pub const KEY_COMP: u8 = 0xB1;

/// Sent when every key is released.
pub const KEY_ALL_UP: u8 = 0xB3;

/// LED parameter byte: 0x80 with a mask of Wait (bit 0), Compose (bit 1),
/// Lock (bit 2) and Hold (bit 3).
#[derive(Clone, Copy, Debug, PartialEq, Eq, Structural)]
pub struct Led(pub u8);

impl Led {
    pub fn new(byte: u8) -> (r: Led)
        ensures
            r.0 == byte,
    {
        Led(byte)
    }

    pub fn is_wait(&self) -> (r: bool)
        ensures
            r == (self.0 & 0x01 == 0x01),
    {
        self.0 & 0x01 == 0x01
    }

    pub fn is_compose(&self) -> (r: bool)
        ensures
            r == (self.0 & 0x02 == 0x02),
    {
        self.0 & 0x02 == 0x02
    }

    pub fn is_lock(&self) -> (r: bool)
        ensures
            r == (self.0 & 0x04 == 0x04),
    {
        self.0 & 0x04 == 0x04
    }

    pub fn is_hold(&self) -> (r: bool)
        ensures
            r == (self.0 & 0x08 == 0x08),
    {
        self.0 & 0x08 == 0x08
    }

    pub fn is_all(&self) -> (r: bool)
        ensures
            r == (self.0 & 0x0F == 0x0F),
    {
        self.0 & 0x0F == 0x0F
    }
}

/// How the keys of a division report.
#[derive(Clone, Copy, Debug, PartialEq, Eq, Structural)]
pub enum KeyMode {
    /// A code on key down, no repeat.
    Down,
    /// A code on key down, then repeats.
    AutoDown,
    /// Codes on key down and key up (modifier keys).
    UpDown,
}

impl KeyMode {
    /// The mode's wire value.
    pub fn code(&self) -> (r: u8)
        ensures
            r == (match self {
                KeyMode::Down => 0x80u8,
                KeyMode::AutoDown => 0x82u8,
                KeyMode::UpDown => 0x86u8,
            }),
    {
        match self {
            KeyMode::Down => 0x80,
            KeyMode::AutoDown => 0x82,
            KeyMode::UpDown => 0x86,
        }
    }
}

/// A keyboard division, 0 to 14.
#[derive(Clone, Copy, Debug, PartialEq, Eq, Structural)]
pub struct Division(pub u8);

impl Division {
    pub fn new(div: u8) -> (r: Option<Division>)
        ensures
            r == (if div <= 14 { Some(Division(div)) } else { None }),
    {
        if div <= 14 {
            Some(Division(div))
        } else {
            None
        }
    }
}

/// An auto-repeat register, 0 to 3.
#[derive(Clone, Copy, Debug, PartialEq, Eq, Structural)]
pub struct AutoRepeatRegister(pub u8);

impl AutoRepeatRegister {
    pub fn new(reg: u8) -> (r: Option<AutoRepeatRegister>)
        ensures
            r == (if reg <= 3 { Some(AutoRepeatRegister(reg)) } else { None }),
    {
        if reg <= 3 {
            Some(AutoRepeatRegister(reg))
        } else {
            None
        }
    }
}

/// A volume level, 0 (loudest) to 7.
#[derive(Clone, Copy, Debug, PartialEq, Eq, Structural)]
pub struct Volume(pub u8);

impl Volume {
    pub fn new(level: u8) -> (r: Option<Volume>)
        ensures
            r == (if level <= 7 { Some(Volume(level)) } else { None }),
    {
        if level <= 7 {
            Some(Volume(level))
        } else {
            None
        }
    }

    /// The parameter byte that carries this volume.
    pub fn as_param_byte(self) -> (r: u8)
        ensures
            r == 0x80 + self.0 % 8,
    {
        0x80 + self.0 % 8
    }
}

/// Commands from the terminal to the keyboard.
#[derive(Clone, Copy, Debug, PartialEq, Eq, Structural)]
pub enum LK201Command {
    LedEnable(Led),
    LedDisable(Led),
    KeyClickEnable(Volume),
    CtrlKeyClickEnable,
    KeyClickDisable,
    CtrlKeyClickDisable,
    SoundClick,
    BellEnable(Volume),
    BellDisable,
    RingBell,
    SetMode { mode: KeyMode, division: Division },
    SetModeWithAutoRepeat { mode: KeyMode, division: Division, register: AutoRepeatRegister },
    RepeatToDown,
    /// Auto-repeat on (odd bytes 0xE1-0xED with bit 1 set, but 0xE9); the
    /// byte names no division, so the division is 0.
    EnableRepeat { division: Division },
    /// Auto-repeat off (odd bytes 0xE1-0xED with bit 1 clear, but 0xE9).
    DisableRepeat { division: Division },
    TempNoRepeat,
    /// Auto-repeat timing of a register: timeout in 5 ms steps and rate in Hz.
    SetAutoRepeat { register: AutoRepeatRegister, timeout: u8, rate: u8 },
    PowerUp,
    RequestId,
    SetDefaults,
    TestMode,
    TestExit,
    Inhibit,
    Resume,
    /// An unknown first byte.
    Unknown(u8),
    Unknown2(u8, u8),
    /// A 3-byte command of unknown meaning (0xE9 and two parameters).
    Unknown3(u8, u8, u8),
}

/// Responses from the keyboard to the terminal.
#[derive(Clone, Copy, Debug, PartialEq, Eq, Structural)]
pub enum LK201Response {
    /// Power-up self test result: two ID bytes, an error code and a keycode.
    PowerUpSelfTest { keyboard_id_firmware: u8, keyboard_id_hardware: u8, error: PowerUpError, keycode: u8 },
    KeyboardId { firmware_id: u8, hardware_id: u8 },
    ModeChangeAck,
    KeyboardLockAck,
    TestModeAck,
    InputError,
    OutputError,
    KeyDown(u8),
    Repeat,
    AllUp,
    PrefixKeyDown(u8),
}

/// Keyboard models by the hardware ID of a KeyboardId response.
#[derive(Clone, Copy, Debug, PartialEq, Eq, Structural)]
pub enum KeyboardType {
    LK201,
    LK401,
    LK443,
    LK421,
}

/// Error codes of the power-up self test.
#[derive(Clone, Copy, Debug, PartialEq, Eq, Structural)]
pub enum PowerUpError {
    NoError,
    KeyDownError,
    PowerError,
    Unknown(u8),
}

/// Bytes the command occupies on the wire.
pub open spec fn spec_len(c: LK201Command) -> nat {
    match c {
        LK201Command::LedEnable(_) | LK201Command::LedDisable(_) | LK201Command::KeyClickEnable(_)
        | LK201Command::BellEnable(_) | LK201Command::SetModeWithAutoRepeat { .. }
        | LK201Command::Unknown2(_, _) => 2,
        LK201Command::SetAutoRepeat { .. } | LK201Command::Unknown3(_, _, _) => 3,
        _ => 1,
    }
}

/// The mode of a mode-set byte by its bits 1-2; `None` for the unused value 2.
pub open spec fn mode_of(bits: u8) -> Option<KeyMode> {
    if bits == 0 {
        Some(KeyMode::Down)
    } else if bits == 1 {
        Some(KeyMode::AutoDown)
    } else if bits == 3 {
        Some(KeyMode::UpDown)
    } else {
        None
    }
}

/// A mode-set byte `b` (bit 0 clear): division in bits 3-6, mode in bits 1-2,
/// and bit 7 clear when an auto-repeat register byte follows.
pub open spec fn spec_parse_mode(q: Seq<u8>, b: u8) -> Result<LK201Command, ()> {
    let div = b / 8 % 16;
    if div > 14 {
        Ok(LK201Command::Unknown(b))
    } else {
        match mode_of(b / 2 % 4) {
            None => Ok(LK201Command::Unknown(b)),
            Some(mode) => if b < 0x80 {
                if q.len() < 2 {
                    Err(())
                } else {
                    Ok(
                        LK201Command::SetModeWithAutoRepeat {
                            mode,
                            division: Division(div),
                            register: AutoRepeatRegister(q[1] % 4),
                        },
                    )
                }
            } else {
                Ok(LK201Command::SetMode { mode, division: Division(div) })
            },
        }
    }
}

/// The command at the front of `q`, or `Err` when `q` does not yet hold all
/// of its bytes.
pub open spec fn spec_parse(q: Seq<u8>) -> Result<LK201Command, ()> {
    if q.len() == 0 {
        Err(())
    } else {
        let b = q[0];
        if b == 0x13 || b == 0x11 || b == 0x1B || b == 0x23 {
            if q.len() < 2 {
                Err(())
            } else if b == 0x13 {
                Ok(LK201Command::LedEnable(Led(q[1])))
            } else if b == 0x11 {
                Ok(LK201Command::LedDisable(Led(q[1])))
            } else if b == 0x1B {
                Ok(LK201Command::KeyClickEnable(Volume(q[1] % 8)))
            } else {
                Ok(LK201Command::BellEnable(Volume(q[1] % 8)))
            }
        } else if b == 0xBB {
            Ok(LK201Command::CtrlKeyClickEnable)
        } else if b == 0x99 {
            Ok(LK201Command::KeyClickDisable)
        } else if b == 0xB9 {
            Ok(LK201Command::CtrlKeyClickDisable)
        } else if b == 0x9F {
            Ok(LK201Command::SoundClick)
        } else if b == 0xA1 {
            Ok(LK201Command::BellDisable)
        } else if b == 0xA7 {
            Ok(LK201Command::RingBell)
        } else if 0x78 <= b <= 0x7F {
            if q.len() < 3 {
                Err(())
            } else {
                Ok(
                    LK201Command::SetAutoRepeat {
                        register: AutoRepeatRegister(b / 2 % 4),
                        timeout: q[1] % 128,
                        rate: q[2] % 128,
                    },
                )
            }
        } else if b % 2 == 0 {
            spec_parse_mode(q, b)
        } else if b == 0xD9 {
            Ok(LK201Command::RepeatToDown)
        } else if b == 0xD1 {
            Ok(LK201Command::TempNoRepeat)
        } else if b == 0xE9 {
            if q.len() < 3 {
                Err(())
            } else {
                Ok(LK201Command::Unknown3(b, q[1], q[2]))
            }
        } else if 0xE1 <= b < 0xEF {
            if b & 0x02 == 0 {
                Ok(LK201Command::DisableRepeat { division: Division(0) })
            } else {
                Ok(LK201Command::EnableRepeat { division: Division(0) })
            }
        } else if b == 0xFD {
            Ok(LK201Command::PowerUp)
        } else if b == 0xAB {
            Ok(LK201Command::RequestId)
        } else if b == 0xD3 {
            Ok(LK201Command::SetDefaults)
        } else if b == 0xCB {
            Ok(LK201Command::TestMode)
        } else if b == 0x8B {
            Ok(LK201Command::Resume)
        } else if b == 0x89 {
            Ok(LK201Command::Inhibit)
        } else {
            Ok(LK201Command::Unknown(b))
        }
    }
}

/// The acknowledgment a command earns, if any.
pub open spec fn spec_response(c: LK201Command) -> Option<LK201Response> {
    match c {
        LK201Command::PowerUp => Some(
            LK201Response::PowerUpSelfTest {
                keyboard_id_firmware: 0x01,
                keyboard_id_hardware: 0x00,
                error: PowerUpError::NoError,
                keycode: 0,
            },
        ),
        LK201Command::RequestId => Some(LK201Response::KeyboardId { firmware_id: 0x01, hardware_id: 0x01 }),
        LK201Command::SetMode { .. } | LK201Command::SetModeWithAutoRepeat { .. }
        | LK201Command::SetAutoRepeat { .. } | LK201Command::RepeatToDown
        | LK201Command::TempNoRepeat | LK201Command::EnableRepeat { .. }
        | LK201Command::DisableRepeat { .. } => Some(LK201Response::ModeChangeAck),
        LK201Command::TestMode => Some(LK201Response::TestModeAck),
        LK201Command::Inhibit => Some(LK201Response::KeyboardLockAck),
        LK201Command::Unknown(_) => Some(LK201Response::InputError),
        _ => None,
    }
}

pub open spec fn spec_error_code(e: PowerUpError) -> u8 {
    match e {
        PowerUpError::NoError => 0x00,
        PowerUpError::KeyDownError => 0x3D,
        PowerUpError::PowerError => 0x3E,
        PowerUpError::Unknown(b) => b,
    }
}

pub open spec fn spec_error_of(b: u8) -> PowerUpError {
    if b == 0x00 {
        PowerUpError::NoError
    } else if b == 0x3D {
        PowerUpError::KeyDownError
    } else if b == 0x3E {
        PowerUpError::PowerError
    } else {
        PowerUpError::Unknown(b)
    }
}

/// The bytes of a response on the wire.
pub open spec fn spec_bytes(r: LK201Response) -> Seq<u8> {
    match r {
        LK201Response::PowerUpSelfTest { keyboard_id_firmware, keyboard_id_hardware, error, keycode } => seq![
            keyboard_id_firmware,
            keyboard_id_hardware,
            spec_error_code(error),
            keycode,
        ],
        LK201Response::KeyboardId { firmware_id, hardware_id } => seq![firmware_id, hardware_id],
        LK201Response::ModeChangeAck => seq![0xBAu8],
        LK201Response::KeyboardLockAck => seq![0xB7u8],
        LK201Response::TestModeAck => seq![0xB8u8],
        LK201Response::InputError => seq![0xB6u8],
        LK201Response::OutputError => seq![0xB5u8],
        LK201Response::KeyDown(k) => seq![k],
        LK201Response::Repeat => seq![0xB4u8],
        LK201Response::AllUp => seq![0xB3u8],
        LK201Response::PrefixKeyDown(k) => seq![0xB9u8, k],
    }
}

/// The bytes a command is answered with (none without a response).
pub open spec fn spec_answer(c: LK201Command) -> Seq<u8> {
    match spec_response(c) {
        Some(r) => spec_bytes(r),
        None => seq![],
    }
}

fn parse_mode(q: &VecDeque<u8>, b: u8) -> (r: Result<LK201Command, ()>)
    requires
        q@.len() >= 1,
        q@[0] == b,
    ensures
        r == spec_parse_mode(q@, b),
{
    let div = b / 8 % 16;
    if div > 14 {
        return Ok(LK201Command::Unknown(b));
    }
    let mode = match b / 2 % 4 {
        0 => KeyMode::Down,
        1 => KeyMode::AutoDown,
        3 => KeyMode::UpDown,
        _ => {
            return Ok(LK201Command::Unknown(b));
        },
    };
    if b < 0x80 {
        if q.len() < 2 {
            return Err(());
        }
        Ok(
            LK201Command::SetModeWithAutoRepeat {
                mode,
                division: Division(div),
                register: AutoRepeatRegister(q[1] % 4),
            },
        )
    } else {
        Ok(LK201Command::SetMode { mode, division: Division(div) })
    }
}

impl LK201Command {
    /// Parse the command at the front of `queue` without consuming it;
    /// `Err` while its bytes have not all arrived.
    pub fn parse(queue: &VecDeque<u8>) -> (r: Result<LK201Command, ()>)
        ensures
            r == spec_parse(queue@),
    {
        if queue.len() == 0 {
            return Err(());
        }
        let b = queue[0];
        if b == 0x13 || b == 0x11 || b == 0x1B || b == 0x23 {
            if queue.len() < 2 {
                return Err(());
            }
            let p = queue[1];
            if b == 0x13 {
                Ok(LK201Command::LedEnable(Led::new(p)))
            } else if b == 0x11 {
                Ok(LK201Command::LedDisable(Led::new(p)))
            } else if b == 0x1B {
                Ok(LK201Command::KeyClickEnable(Volume(p % 8)))
            } else {
                Ok(LK201Command::BellEnable(Volume(p % 8)))
            }
        } else if b == 0xBB {
            Ok(LK201Command::CtrlKeyClickEnable)
        } else if b == 0x99 {
            Ok(LK201Command::KeyClickDisable)
        } else if b == 0xB9 {
            Ok(LK201Command::CtrlKeyClickDisable)
        } else if b == 0x9F {
            Ok(LK201Command::SoundClick)
        } else if b == 0xA1 {
            Ok(LK201Command::BellDisable)
        } else if b == 0xA7 {
            Ok(LK201Command::RingBell)
        } else if 0x78 <= b && b <= 0x7F {
            if queue.len() < 3 {
                return Err(());
            }
            Ok(
                LK201Command::SetAutoRepeat {
                    register: AutoRepeatRegister(b / 2 % 4),
                    timeout: queue[1] % 128,
                    rate: queue[2] % 128,
                },
            )
        } else if b % 2 == 0 {
            parse_mode(queue, b)
        } else if b == 0xD9 {
            Ok(LK201Command::RepeatToDown)
        } else if b == 0xD1 {
            Ok(LK201Command::TempNoRepeat)
        } else if b == 0xE9 {
            if queue.len() < 3 {
                return Err(());
            }
            Ok(LK201Command::Unknown3(b, queue[1], queue[2]))
        } else if 0xE1 <= b && b < 0xEF {
            if b & 0x02 == 0 {
                Ok(LK201Command::DisableRepeat { division: Division(0) })
            } else {
                Ok(LK201Command::EnableRepeat { division: Division(0) })
            }
        } else if b == 0xFD {
            Ok(LK201Command::PowerUp)
        } else if b == 0xAB {
            Ok(LK201Command::RequestId)
        } else if b == 0xD3 {
            Ok(LK201Command::SetDefaults)
        } else if b == 0xCB {
            Ok(LK201Command::TestMode)
        } else if b == 0x8B {
            Ok(LK201Command::Resume)
        } else if b == 0x89 {
            Ok(LK201Command::Inhibit)
        } else {
            Ok(LK201Command::Unknown(b))
        }
    }

    /// Bytes this command occupies on the wire.
    pub fn len(&self) -> (r: usize)
        ensures
            r == spec_len(*self),
    {
        match self {
            LK201Command::LedEnable(_) | LK201Command::LedDisable(_) | LK201Command::KeyClickEnable(_)
            | LK201Command::BellEnable(_) | LK201Command::SetModeWithAutoRepeat { .. }
            | LK201Command::Unknown2(_, _) => 2,
            LK201Command::SetAutoRepeat { .. } | LK201Command::Unknown3(_, _, _) => 3,
            _ => 1,
        }
    }

    /// The response the keyboard sends for this command: the power-up
    /// report, the keyboard ID, a mode-change, test-mode or lock
    /// acknowledgment, an input error for an unknown command; `None` for the
    /// LED, bell, click, defaults and resume commands.
    pub fn response(&self) -> (r: Option<LK201Response>)
        ensures
            r == spec_response(*self),
    {
        match self {
            LK201Command::PowerUp => Some(
                LK201Response::PowerUpSelfTest {
                    keyboard_id_firmware: 0x01,
                    keyboard_id_hardware: 0x00,
                    error: PowerUpError::NoError,
                    keycode: 0,
                },
            ),
            LK201Command::RequestId => Some(LK201Response::KeyboardId { firmware_id: 0x01, hardware_id: 0x01 }),
            LK201Command::SetMode { .. } | LK201Command::SetModeWithAutoRepeat { .. }
            | LK201Command::SetAutoRepeat { .. } | LK201Command::RepeatToDown
            | LK201Command::TempNoRepeat | LK201Command::EnableRepeat { .. }
            | LK201Command::DisableRepeat { .. } => Some(LK201Response::ModeChangeAck),
            LK201Command::TestMode => Some(LK201Response::TestModeAck),
            LK201Command::Inhibit => Some(LK201Response::KeyboardLockAck),
            LK201Command::Unknown(_) => Some(LK201Response::InputError),
            _ => None,
        }
    }
}

impl<'a> TryFrom<&'a VecDeque<u8>> for LK201Command {
    type Error = ();

    /// See `LK201Command::parse`.
    fn try_from(queue: &'a VecDeque<u8>) -> (r: Result<LK201Command, ()>) {
        LK201Command::parse(queue)
    }
}

impl<'a> vstd::std_specs::convert::TryFromSpecImpl<&'a VecDeque<u8>> for LK201Command {
    open spec fn obeys_try_from_spec() -> bool {
        true
    }

    open spec fn try_from_spec(queue: &'a VecDeque<u8>) -> Result<LK201Command, ()> {
        spec_parse(queue@)
    }
}

impl From<u8> for PowerUpError {
    /// See `PowerUpError::from_code`.
    fn from(byte: u8) -> (r: PowerUpError) {
        PowerUpError::from_code(byte)
    }
}

impl vstd::std_specs::convert::FromSpecImpl<u8> for PowerUpError {
    open spec fn obeys_from_spec() -> bool {
        true
    }

    open spec fn from_spec(byte: u8) -> PowerUpError {
        spec_error_of(byte)
    }
}

impl From<PowerUpError> for u8 {
    /// See `PowerUpError::code`.
    fn from(error: PowerUpError) -> (r: u8) {
        error.code()
    }
}

impl vstd::std_specs::convert::FromSpecImpl<PowerUpError> for u8 {
    open spec fn obeys_from_spec() -> bool {
        true
    }

    open spec fn from_spec(error: PowerUpError) -> u8 {
        spec_error_code(error)
    }
}

impl PowerUpError {
    /// The error for a self-test code byte.
    pub fn from_code(byte: u8) -> (r: PowerUpError)
        ensures
            r == spec_error_of(byte),
    {
        if byte == 0x00 {
            PowerUpError::NoError
        } else if byte == 0x3D {
            PowerUpError::KeyDownError
        } else if byte == 0x3E {
            PowerUpError::PowerError
        } else {
            PowerUpError::Unknown(byte)
        }
    }

    /// The self-test code byte of this error.
    pub fn code(self) -> (r: u8)
        ensures
            r == spec_error_code(self),
    {
        match self {
            PowerUpError::NoError => 0x00,
            PowerUpError::KeyDownError => 0x3D,
            PowerUpError::PowerError => 0x3E,
            PowerUpError::Unknown(byte) => byte,
        }
    }
}

impl LK201Response {
    /// The bytes of this response on the wire.
    pub fn to_bytes(&self) -> (r: Vec<u8>)
        ensures
            r@ == spec_bytes(*self),
    {
        match self {
            LK201Response::PowerUpSelfTest { keyboard_id_firmware, keyboard_id_hardware, error, keycode } => {
                vec![*keyboard_id_firmware, *keyboard_id_hardware, error.code(), *keycode]
            },
            LK201Response::KeyboardId { firmware_id, hardware_id } => vec![*firmware_id, *hardware_id],
            LK201Response::ModeChangeAck => vec![0xBA],
            LK201Response::KeyboardLockAck => vec![0xB7],
            LK201Response::TestModeAck => vec![0xB8],
            LK201Response::InputError => vec![0xB6],
            LK201Response::OutputError => vec![0xB5],
            LK201Response::KeyDown(keycode) => vec![*keycode],
            LK201Response::Repeat => vec![0xB4],
            LK201Response::AllUp => vec![0xB3],
            LK201Response::PrefixKeyDown(keycode) => vec![0xB9, *keycode],
        }
    }
}

impl KeyboardType {
    /// The hardware ID that names this model in a KeyboardId response.
    pub fn id(&self) -> (r: u8)
        ensures
            r == (match self {
                KeyboardType::LK201 => 1u8,
                KeyboardType::LK401 => 2u8,
                KeyboardType::LK443 => 3u8,
                KeyboardType::LK421 => 4u8,
            }),
    {
        match self {
            KeyboardType::LK201 => 1,
            KeyboardType::LK401 => 2,
            KeyboardType::LK443 => 3,
            KeyboardType::LK421 => 4,
        }
    }

    pub fn from_id(id: u8) -> (r: Option<KeyboardType>)
        ensures
            r == (if id == 1 {
                Some(KeyboardType::LK201)
            } else if id == 2 {
                Some(KeyboardType::LK401)
            } else if id == 3 {
                Some(KeyboardType::LK443)
            } else if id == 4 {
                Some(KeyboardType::LK421)
            } else {
                None
            }),
    {
        match id {
            1 => Some(KeyboardType::LK201),
            2 => Some(KeyboardType::LK401),
            3 => Some(KeyboardType::LK443),
            4 => Some(KeyboardType::LK421),
            _ => None,
        }
    }
}

} // verus!

verus! {

/// Keys without a character, by their LK201 scan code.
#[derive(Clone, Copy, Debug, PartialEq, Eq, Structural)]
pub enum SpecialKey {
    Kp0,
    KpPeriod,
    KpEnter,
    Kp1,
    Kp2,
    Kp3,
    Kp4,
    Kp5,
    Kp6,
    KpComma,
    Kp7,
    Kp8,
    Kp9,
    KpHyphen,
    KpPf1,
    KpPf2,
    KpPf3,
    KpPf4,
    Delete,
    Return,
    Tab,
    Lock,
    Meta,
    Shift,
    Ctrl,
    Left,
    Right,
    Down,
    Up,
    RShift,
    Find,
    InsertHere,
    Remove,
    Select,
    PrevScreen,
    NextScreen,
    F1,
    F2,
    F3,
    F4,
    F5,
    F6,
    F7,
    F8,
    F9,
    F10,
    F11,
    F12,
    F13,
    F14,
    Help,
    Menu,
    F17,
    F18,
    F19,
    F20,
}

pub open spec fn spec_key_code(key: SpecialKey) -> u8 {
    match key {
        SpecialKey::Kp0 => 0x92u8,
        SpecialKey::KpPeriod => 0x94u8,
        SpecialKey::KpEnter => 0x95u8,
        SpecialKey::Kp1 => 0x96u8,
        SpecialKey::Kp2 => 0x97u8,
        SpecialKey::Kp3 => 0x98u8,
        SpecialKey::Kp4 => 0x99u8,
        SpecialKey::Kp5 => 0x9au8,
        SpecialKey::Kp6 => 0x9bu8,
        SpecialKey::KpComma => 0x9cu8,
        SpecialKey::Kp7 => 0x9du8,
        SpecialKey::Kp8 => 0x9eu8,
        SpecialKey::Kp9 => 0x9fu8,
        SpecialKey::KpHyphen => 0xa0u8,
        SpecialKey::KpPf1 => 0xa1u8,
        SpecialKey::KpPf2 => 0xa2u8,
        SpecialKey::KpPf3 => 0xa3u8,
        SpecialKey::KpPf4 => 0xa4u8,
        SpecialKey::Delete => 0xbcu8,
        SpecialKey::Return => 0xbdu8,
        SpecialKey::Tab => 0xbeu8,
        SpecialKey::Lock => 0xb0u8,
        SpecialKey::Meta => 0xb1u8,
        SpecialKey::Shift => 0xaeu8,
        SpecialKey::Ctrl => 0xafu8,
        SpecialKey::Left => 0xa7u8,
        SpecialKey::Right => 0xa8u8,
        SpecialKey::Down => 0xa9u8,
        SpecialKey::Up => 0xaau8,
        SpecialKey::RShift => 0xabu8,
        SpecialKey::Find => 0x8au8,
        SpecialKey::InsertHere => 0x8bu8,
        SpecialKey::Remove => 0x8cu8,
        SpecialKey::Select => 0x8du8,
        SpecialKey::PrevScreen => 0x8eu8,
        SpecialKey::NextScreen => 0x8fu8,
        SpecialKey::F1 => 0x56u8,
        SpecialKey::F2 => 0x57u8,
        SpecialKey::F3 => 0x58u8,
        SpecialKey::F4 => 0x59u8,
        SpecialKey::F5 => 0x5au8,
        SpecialKey::F6 => 0x64u8,
        SpecialKey::F7 => 0x65u8,
        SpecialKey::F8 => 0x66u8,
        SpecialKey::F9 => 0x67u8,
        SpecialKey::F10 => 0x68u8,
        SpecialKey::F11 => 0x71u8,
        SpecialKey::F12 => 0x72u8,
        SpecialKey::F13 => 0x73u8,
        SpecialKey::F14 => 0x74u8,
        SpecialKey::Help => 0x7cu8,
        SpecialKey::Menu => 0x7du8,
        SpecialKey::F17 => 0x80u8,
        SpecialKey::F18 => 0x81u8,
        SpecialKey::F19 => 0x82u8,
        SpecialKey::F20 => 0x83u8,
    }
}

impl SpecialKey {
    /// The key's scan code.
    pub fn code(&self) -> (r: u8)
        ensures
            r == spec_key_code(*self),
    {
        match self {
            SpecialKey::Kp0 => 0x92,
            SpecialKey::KpPeriod => 0x94,
            SpecialKey::KpEnter => 0x95,
            SpecialKey::Kp1 => 0x96,
            SpecialKey::Kp2 => 0x97,
            SpecialKey::Kp3 => 0x98,
            SpecialKey::Kp4 => 0x99,
            SpecialKey::Kp5 => 0x9a,
            SpecialKey::Kp6 => 0x9b,
            SpecialKey::KpComma => 0x9c,
            SpecialKey::Kp7 => 0x9d,
            SpecialKey::Kp8 => 0x9e,
            SpecialKey::Kp9 => 0x9f,
            SpecialKey::KpHyphen => 0xa0,
            SpecialKey::KpPf1 => 0xa1,
            SpecialKey::KpPf2 => 0xa2,
            SpecialKey::KpPf3 => 0xa3,
            SpecialKey::KpPf4 => 0xa4,
            SpecialKey::Delete => 0xbc,
            SpecialKey::Return => 0xbd,
            SpecialKey::Tab => 0xbe,
            SpecialKey::Lock => 0xb0,
            SpecialKey::Meta => 0xb1,
            SpecialKey::Shift => 0xae,
            SpecialKey::Ctrl => 0xaf,
            SpecialKey::Left => 0xa7,
            SpecialKey::Right => 0xa8,
            SpecialKey::Down => 0xa9,
            SpecialKey::Up => 0xaa,
            SpecialKey::RShift => 0xab,
            SpecialKey::Find => 0x8a,
            SpecialKey::InsertHere => 0x8b,
            SpecialKey::Remove => 0x8c,
            SpecialKey::Select => 0x8d,
            SpecialKey::PrevScreen => 0x8e,
            SpecialKey::NextScreen => 0x8f,
            SpecialKey::F1 => 0x56,
            SpecialKey::F2 => 0x57,
            SpecialKey::F3 => 0x58,
            SpecialKey::F4 => 0x59,
            SpecialKey::F5 => 0x5a,
            SpecialKey::F6 => 0x64,
            SpecialKey::F7 => 0x65,
            SpecialKey::F8 => 0x66,
            SpecialKey::F9 => 0x67,
            SpecialKey::F10 => 0x68,
            SpecialKey::F11 => 0x71,
            SpecialKey::F12 => 0x72,
            SpecialKey::F13 => 0x73,
            SpecialKey::F14 => 0x74,
            SpecialKey::Help => 0x7c,
            SpecialKey::Menu => 0x7d,
            SpecialKey::F17 => 0x80,
            SpecialKey::F18 => 0x81,
            SpecialKey::F19 => 0x82,
            SpecialKey::F20 => 0x83,
        }
    }
}

/// The scan code of the key that types `c`, and whether Shift is held for it.
pub open spec fn spec_char_key(c: char) -> Option<(u8, bool)> {
    match c {
        '`' => Some((0xbfu8, false)),
        '~' => Some((0xbfu8, true)),
        '1' => Some((0xc0u8, false)),
        '!' => Some((0xc0u8, true)),
        '2' => Some((0xc5u8, false)),
        '@' => Some((0xc5u8, true)),
        '3' => Some((0xcbu8, false)),
        '#' => Some((0xcbu8, true)),
        '4' => Some((0xd0u8, false)),
        '$' => Some((0xd0u8, true)),
        '5' => Some((0xd6u8, false)),
        '%' => Some((0xd6u8, true)),
        '6' => Some((0xdbu8, false)),
        '^' => Some((0xdbu8, true)),
        '7' => Some((0xe0u8, false)),
        '&' => Some((0xe0u8, true)),
        '8' => Some((0xe5u8, false)),
        '*' => Some((0xe5u8, true)),
        '9' => Some((0xeau8, false)),
        '(' => Some((0xeau8, true)),
        '0' => Some((0xefu8, false)),
        ')' => Some((0xefu8, true)),
        '-' => Some((0xf9u8, false)),
        '_' => Some((0xf9u8, true)),
        '=' => Some((0xf5u8, false)),
        '+' => Some((0xf5u8, true)),
        'q' => Some((0xc1u8, false)),
        'Q' => Some((0xc1u8, true)),
        'w' => Some((0xc6u8, false)),
        'W' => Some((0xc6u8, true)),
        'e' => Some((0xccu8, false)),
        'E' => Some((0xccu8, true)),
        'r' => Some((0xd1u8, false)),
        'R' => Some((0xd1u8, true)),
        't' => Some((0xd7u8, false)),
        'T' => Some((0xd7u8, true)),
        'y' => Some((0xdcu8, false)),
        'Y' => Some((0xdcu8, true)),
        'u' => Some((0xe1u8, false)),
        'U' => Some((0xe1u8, true)),
        'i' => Some((0xe6u8, false)),
        'I' => Some((0xe6u8, true)),
        'o' => Some((0xebu8, false)),
        'O' => Some((0xebu8, true)),
        'p' => Some((0xf0u8, false)),
        'P' => Some((0xf0u8, true)),
        '[' => Some((0xfau8, false)),
        '{' => Some((0xfau8, true)),
        ']' => Some((0xf6u8, false)),
        '}' => Some((0xf6u8, true)),
        '\\' => Some((0xf7u8, false)),
        '|' => Some((0xf7u8, true)),
        'a' => Some((0xc2u8, false)),
        'A' => Some((0xc2u8, true)),
        's' => Some((0xc7u8, false)),
        'S' => Some((0xc7u8, true)),
        'd' => Some((0xcdu8, false)),
        'D' => Some((0xcdu8, true)),
        'f' => Some((0xd2u8, false)),
        'F' => Some((0xd2u8, true)),
        'g' => Some((0xd8u8, false)),
        'G' => Some((0xd8u8, true)),
        'h' => Some((0xddu8, false)),
        'H' => Some((0xddu8, true)),
        'j' => Some((0xe2u8, false)),
        'J' => Some((0xe2u8, true)),
        'k' => Some((0xe7u8, false)),
        'K' => Some((0xe7u8, true)),
        'l' => Some((0xecu8, false)),
        'L' => Some((0xecu8, true)),
        ';' => Some((0xf2u8, false)),
        ':' => Some((0xf2u8, true)),
        '\'' => Some((0xfbu8, false)),
        '"' => Some((0xfbu8, true)),
        'z' => Some((0xc3u8, false)),
        'Z' => Some((0xc3u8, true)),
        'x' => Some((0xc8u8, false)),
        'X' => Some((0xc8u8, true)),
        'c' => Some((0xceu8, false)),
        'C' => Some((0xceu8, true)),
        'v' => Some((0xd3u8, false)),
        'V' => Some((0xd3u8, true)),
        'b' => Some((0xd9u8, false)),
        'B' => Some((0xd9u8, true)),
        'n' => Some((0xdeu8, false)),
        'N' => Some((0xdeu8, true)),
        'm' => Some((0xe3u8, false)),
        'M' => Some((0xe3u8, true)),
        '<' => Some((0xc9u8, false)),
        '>' => Some((0xc9u8, true)),
        ',' => Some((0xe8u8, false)),
        '.' => Some((0xedu8, false)),
        '/' => Some((0xf3u8, false)),
        '?' => Some((0xf3u8, true)),
        ' ' => Some((0xd4u8, false)),
        _ => None,
    }
}

/// The scan code of the key that types `c`, and whether Shift is held for it.
pub fn char_key(c: char) -> (r: Option<(u8, bool)>)
    ensures
        r == spec_char_key(c),
{
    match c {
        '`' => Some((0xbfu8, false)),
        '~' => Some((0xbfu8, true)),
        '1' => Some((0xc0u8, false)),
        '!' => Some((0xc0u8, true)),
        '2' => Some((0xc5u8, false)),
        '@' => Some((0xc5u8, true)),
        '3' => Some((0xcbu8, false)),
        '#' => Some((0xcbu8, true)),
        '4' => Some((0xd0u8, false)),
        '$' => Some((0xd0u8, true)),
        '5' => Some((0xd6u8, false)),
        '%' => Some((0xd6u8, true)),
        '6' => Some((0xdbu8, false)),
        '^' => Some((0xdbu8, true)),
        '7' => Some((0xe0u8, false)),
        '&' => Some((0xe0u8, true)),
        '8' => Some((0xe5u8, false)),
        '*' => Some((0xe5u8, true)),
        '9' => Some((0xeau8, false)),
        '(' => Some((0xeau8, true)),
        '0' => Some((0xefu8, false)),
        ')' => Some((0xefu8, true)),
        '-' => Some((0xf9u8, false)),
        '_' => Some((0xf9u8, true)),
        '=' => Some((0xf5u8, false)),
        '+' => Some((0xf5u8, true)),
        'q' => Some((0xc1u8, false)),
        'Q' => Some((0xc1u8, true)),
        'w' => Some((0xc6u8, false)),
        'W' => Some((0xc6u8, true)),
        'e' => Some((0xccu8, false)),
        'E' => Some((0xccu8, true)),
        'r' => Some((0xd1u8, false)),
        'R' => Some((0xd1u8, true)),
        't' => Some((0xd7u8, false)),
        'T' => Some((0xd7u8, true)),
        'y' => Some((0xdcu8, false)),
        'Y' => Some((0xdcu8, true)),
        'u' => Some((0xe1u8, false)),
        'U' => Some((0xe1u8, true)),
        'i' => Some((0xe6u8, false)),
        'I' => Some((0xe6u8, true)),
        'o' => Some((0xebu8, false)),
        'O' => Some((0xebu8, true)),
        'p' => Some((0xf0u8, false)),
        'P' => Some((0xf0u8, true)),
        '[' => Some((0xfau8, false)),
        '{' => Some((0xfau8, true)),
        ']' => Some((0xf6u8, false)),
        '}' => Some((0xf6u8, true)),
        '\\' => Some((0xf7u8, false)),
        '|' => Some((0xf7u8, true)),
        'a' => Some((0xc2u8, false)),
        'A' => Some((0xc2u8, true)),
        's' => Some((0xc7u8, false)),
        'S' => Some((0xc7u8, true)),
        'd' => Some((0xcdu8, false)),
        'D' => Some((0xcdu8, true)),
        'f' => Some((0xd2u8, false)),
        'F' => Some((0xd2u8, true)),
        'g' => Some((0xd8u8, false)),
        'G' => Some((0xd8u8, true)),
        'h' => Some((0xddu8, false)),
        'H' => Some((0xddu8, true)),
        'j' => Some((0xe2u8, false)),
        'J' => Some((0xe2u8, true)),
        'k' => Some((0xe7u8, false)),
        'K' => Some((0xe7u8, true)),
        'l' => Some((0xecu8, false)),
        'L' => Some((0xecu8, true)),
        ';' => Some((0xf2u8, false)),
        ':' => Some((0xf2u8, true)),
        '\'' => Some((0xfbu8, false)),
        '"' => Some((0xfbu8, true)),
        'z' => Some((0xc3u8, false)),
        'Z' => Some((0xc3u8, true)),
        'x' => Some((0xc8u8, false)),
        'X' => Some((0xc8u8, true)),
        'c' => Some((0xceu8, false)),
        'C' => Some((0xceu8, true)),
        'v' => Some((0xd3u8, false)),
        'V' => Some((0xd3u8, true)),
        'b' => Some((0xd9u8, false)),
        'B' => Some((0xd9u8, true)),
        'n' => Some((0xdeu8, false)),
        'N' => Some((0xdeu8, true)),
        'm' => Some((0xe3u8, false)),
        'M' => Some((0xe3u8, true)),
        '<' => Some((0xc9u8, false)),
        '>' => Some((0xc9u8, true)),
        ',' => Some((0xe8u8, false)),
        '.' => Some((0xedu8, false)),
        '/' => Some((0xf3u8, false)),
        '?' => Some((0xf3u8, true)),
        ' ' => Some((0xd4u8, false)),
        _ => None,
    }
}

/// The bytes that type `c`: its scan code, wrapped in Shift and all-up for a
/// shifted character; `None` for a character with no key.
pub open spec fn spec_char_bytes(c: char) -> Option<Seq<u8>> {
    match spec_char_key(c) {
        None => None,
        Some((code, false)) => Some(seq![code]),
        Some((code, true)) => Some(seq![KEY_SHIFT, code, KEY_ALL_UP]),
    }
}

pub fn char_bytes(c: char) -> (r: Option<Vec<u8>>)
    ensures
        r matches Some(v) ==> spec_char_bytes(c) == Some(v@),
        r is None <==> spec_char_bytes(c) is None,
{
    match char_key(c) {
        None => None,
        Some((code, false)) => Some(vec![code]),
        Some((code, true)) => Some(vec![KEY_SHIFT, code, KEY_ALL_UP]),
    }
}

/// The keyboard's sending side, handed to whatever translates host input.
pub struct LK201Sender {
    send: Sender<u8>,
}

impl LK201Sender {
    fn new(send: Sender<u8>) -> LK201Sender {
        LK201Sender { send }
    }

    fn send_all(&self, bytes: &Vec<u8>) {
        let mut i: usize = 0;
        while i < bytes.len()
            invariant
                i <= bytes@.len(),
            decreases bytes@.len() - i,
        {
            send(&self.send, bytes[i]);
            i = i + 1;
        }
    }

    /// Press `key`: its code (see `special_key_bytes`).
    pub fn send_special_key(&self, key: SpecialKey) {
        self.send_all(&special_key_bytes(key));
    }

    /// Press `key` with Ctrl held (see `ctrl_special_key_bytes`).
    pub fn send_ctrl_special_key(&self, key: SpecialKey) {
        self.send_all(&ctrl_special_key_bytes(key));
    }

    /// Press `key` with Shift held (see `shift_special_key_bytes`).
    pub fn send_shift_special_key(&self, key: SpecialKey) {
        self.send_all(&shift_special_key_bytes(key));
    }

    /// Press `key` with Ctrl and Shift held (see
    /// `shift_ctrl_special_key_bytes`).
    pub fn send_shift_ctrl_special_key(&self, key: SpecialKey) {
        self.send_all(&shift_ctrl_special_key_bytes(key));
    }

    /// Escape: Ctrl-3 (see `escape_bytes`).
    pub fn send_escape(&self) {
        self.send_all(&escape_bytes());
    }

    /// Type `c` (see `char_bytes`); `Err`, with nothing sent, for a character
    /// with no key.
    pub fn send_char(&self, c: char) -> (r: Result<(), ()>)
        ensures
            r is Err <==> spec_char_bytes(c) is None,
    {
        match char_bytes(c) {
            Some(bytes) => {
                self.send_all(&bytes);
                Ok(())
            },
            None => Err(()),
        }
    }

    /// Type `c` with Ctrl held (see `ctrl_char_bytes`); `Err`, with nothing
    /// sent, for a character with no key.
    pub fn send_ctrl_char(&self, c: char) -> (r: Result<(), ()>)
        ensures
            r is Err <==> spec_char_key(c) is None,
    {
        match ctrl_char_bytes(c) {
            Some(bytes) => {
                self.send_all(&bytes);
                Ok(())
            },
            None => Err(()),
        }
    }
}

/// The bytes of a key press: the key's code.
pub fn special_key_bytes(key: SpecialKey) -> (r: Vec<u8>)
    ensures
        r@ == seq![spec_key_code(key)],
{
    vec![key.code()]
}

/// The bytes of a key pressed with Ctrl: Ctrl, the code, all up.
pub fn ctrl_special_key_bytes(key: SpecialKey) -> (r: Vec<u8>)
    ensures
        r@ == seq![KEY_CTRL, spec_key_code(key), KEY_ALL_UP],
{
    vec![KEY_CTRL, key.code(), KEY_ALL_UP]
}

/// The bytes of a key pressed with Shift: Shift, the code, all up.
pub fn shift_special_key_bytes(key: SpecialKey) -> (r: Vec<u8>)
    ensures
        r@ == seq![KEY_SHIFT, spec_key_code(key), KEY_ALL_UP],
{
    vec![KEY_SHIFT, key.code(), KEY_ALL_UP]
}

/// The bytes of a key pressed with Ctrl and Shift: Ctrl, Shift, the code,
/// all up.
pub fn shift_ctrl_special_key_bytes(key: SpecialKey) -> (r: Vec<u8>)
    ensures
        r@ == seq![KEY_CTRL, KEY_SHIFT, spec_key_code(key), KEY_ALL_UP],
{
    vec![KEY_CTRL, KEY_SHIFT, key.code(), KEY_ALL_UP]
}

/// The key code of the "3" key, which with Ctrl gives Escape.
pub const KEY_3: u8 = 0xcb;

/// The bytes of Escape: Ctrl, the "3" key, all up.
pub fn escape_bytes() -> (r: Vec<u8>)
    ensures
        r@ == seq![KEY_CTRL, KEY_3, KEY_ALL_UP],
{
    vec![KEY_CTRL, KEY_3, KEY_ALL_UP]
}

/// The bytes that type `c` with Ctrl held: Ctrl, the key's code, all up;
/// `None` for a character with no key.
pub fn ctrl_char_bytes(c: char) -> (r: Option<Vec<u8>>)
    ensures
        r is None <==> spec_char_key(c) is None,
        r matches Some(v) ==> v@ == seq![KEY_CTRL, spec_char_key(c)->Some_0.0, KEY_ALL_UP],
{
    match char_key(c) {
        Some((code, _)) => Some(vec![KEY_CTRL, code, KEY_ALL_UP]),
        None => None,
    }
}

/// What the keyboard does in one step with newly arrived bytes: they join
/// the queue; then, if the queue holds a complete command, that one command
/// leaves the queue and its answer goes out.
pub open spec fn spec_process(queue: Seq<u8>, incoming: Seq<u8>) -> (Seq<u8>, Seq<u8>) {
    let q = queue + incoming;
    match spec_parse(q) {
        Err(_) => (q, seq![]),
        Ok(c) => (q.skip(spec_len(c) as int), spec_answer(c)),
    }
}

/// The keyboard controller.
pub struct LK201 {
    recv: Receiver<u8>,
    send: Sender<u8>,
    kbd_queue: VecDeque<u8>,
}

impl LK201 {
    /// Bytes received but not yet consumed by a command.
    pub closed spec fn queue(&self) -> Seq<u8> {
        self.kbd_queue@
    }

    /// A keyboard that sends on `send` and receives commands on `recv`.
    pub fn new(send: Sender<u8>, recv: Receiver<u8>) -> (r: LK201)
        ensures
            r.queue() == Seq::<u8>::empty(),
    {
        LK201 { send, recv, kbd_queue: VecDeque::new() }
    }

    /// A sender for key events.
    pub fn sender(&self) -> LK201Sender {
        LK201Sender::new(clone_sender(&self.send))
    }

    /// Take in `incoming` and handle at most one command; return the answer
    /// to send.
    pub fn process(&mut self, incoming: &Vec<u8>) -> (out: Vec<u8>)
        ensures
            (final(self).queue(), out@) == spec_process(old(self).queue(), incoming@),
    {
        let ghost q0 = self.kbd_queue@;
        let mut i: usize = 0;
        while i < incoming.len()
            invariant
                i <= incoming@.len(),
                self.kbd_queue@ == q0 + incoming@.take(i as int),
            decreases incoming@.len() - i,
        {
            self.kbd_queue.push_back(incoming[i]);
            i = i + 1;
            assert(incoming@.take(i as int) == incoming@.take((i - 1) as int).push(incoming@[i - 1]));
        }
        assert(incoming@.take(incoming@.len() as int) =~= incoming@);
        let ghost q = self.kbd_queue@;
        let command = match LK201Command::parse(&self.kbd_queue) {
            Ok(c) => c,
            Err(_) => {
                return Vec::new();
            },
        };
        proof {
            lemma_parse_complete(q);
        }
        let n = command.len();
        let mut k: usize = 0;
        while k < n
            invariant
                k <= n <= q.len(),
                self.kbd_queue@ == q.skip(k as int),
            decreases n - k,
        {
            self.kbd_queue.pop_front();
            k = k + 1;
            assert(q.skip(k as int) =~= q.skip((k - 1) as int).drop_first());
        }
        match command.response() {
            Some(response) => response.to_bytes(),
            None => Vec::new(),
        }
    }

    /// One machine step: take what the terminal has sent, handle at most one
    /// command, and send its answer. Returns the bytes taken and the bytes
    /// sent.
    pub fn tick(&mut self) -> (r: (Vec<u8>, Vec<u8>))
        ensures
            (final(self).queue(), r.1@) == spec_process(old(self).queue(), r.0@),
    {
        let incoming = drain(&self.recv);
        let out = self.process(&incoming);
        let mut i: usize = 0;
        while i < out.len()
            invariant
                i <= out@.len(),
            decreases out@.len() - i,
        {
            send(&self.send, out[i]);
            i = i + 1;
        }
        (incoming, out)
    }
}

/// A parsed command lies within the bytes that were parsed.
pub proof fn lemma_parse_complete(q: Seq<u8>)
    requires
        spec_parse(q) is Ok,
    ensures
        spec_len(spec_parse(q)->Ok_0) <= q.len(),
{
}

/// Parsing needs exactly the command's bytes: the command's own bytes parse
/// to the same command, and every shorter prefix is incomplete.
pub proof fn lemma_parse_exact(q: Seq<u8>)
    requires
        spec_parse(q) is Ok,
    ensures
        spec_len(spec_parse(q)->Ok_0) <= q.len(),
        spec_parse(q.take(spec_len(spec_parse(q)->Ok_0) as int)) == spec_parse(q),
        forall|k: int| 0 <= k < spec_len(spec_parse(q)->Ok_0) ==> #[trigger] spec_parse(q.take(k)) is Err,
{
    let n = spec_len(spec_parse(q)->Ok_0) as int;
    let p = q.take(n);
    assert(p.len() >= 1 ==> p[0] == q[0]);
    assert(p.len() >= 2 ==> p[1] == q[1]);
    assert(p.len() >= 3 ==> p[2] == q[2]);
    assert forall|k: int| 0 <= k < n implies #[trigger] spec_parse(q.take(k)) is Err by {
        let t = q.take(k);
        assert(t.len() >= 1 ==> t[0] == q[0]);
        assert(t.len() >= 2 ==> t[1] == q[1]);
    }
}

/// What each command is answered with: the power-up report `01 00 00 00`,
/// the ID `01 01`, `BA` for every mode change, `B8` for test mode, `B7` for
/// inhibit, `B6` for an unknown byte, and nothing for the LED, bell, click,
/// defaults and resume commands.
pub proof fn lemma_answers(c: LK201Command)
    ensures
        c == LK201Command::PowerUp ==> spec_answer(c) == seq![0x01u8, 0x00, 0x00, 0x00],
        c == LK201Command::RequestId ==> spec_answer(c) == seq![0x01u8, 0x01],
        (c is SetMode || c is SetModeWithAutoRepeat || c is SetAutoRepeat || c is RepeatToDown
            || c is TempNoRepeat || c is EnableRepeat || c is DisableRepeat) ==> spec_answer(c)
            == seq![0xBAu8],
        c == LK201Command::TestMode ==> spec_answer(c) == seq![0xB8u8],
        c == LK201Command::Inhibit ==> spec_answer(c) == seq![0xB7u8],
        c is Unknown ==> spec_answer(c) == seq![0xB6u8],
        (c is LedEnable || c is LedDisable || c is BellEnable || c is BellDisable || c is RingBell
            || c is KeyClickEnable || c is KeyClickDisable || c is CtrlKeyClickEnable
            || c is CtrlKeyClickDisable || c is SoundClick || c is SetDefaults || c is Resume)
            ==> spec_answer(c) == Seq::<u8>::empty(),
{
}

} // verus!
