//! Input device support: pointers, keypads and encoders.
//!
//! An input device is modeled by the data it last reported.  The embedding
//! reads the hardware and hands plain records ([`PointerData`],
//! [`KeypadData`], [`EncoderData`]) to the device; the getters return what
//! was last pushed.

use crate::widgets::Point;
use vstd::prelude::*;

verus! {

/// The key code for `up`.
pub const KEY_UP: u32 = 17;

/// The key code for `down`.
pub const KEY_DOWN: u32 = 18;

/// The key code for `right`.
pub const KEY_RIGHT: u32 = 19;

/// The key code for `left`.
pub const KEY_LEFT: u32 = 20;

/// The key code for `escape`.
pub const KEY_ESC: u32 = 27;

/// The key code for `delete`.
pub const KEY_DEL: u32 = 127;

/// The key code for `backspace`.
pub const KEY_BACKSPACE: u32 = 8;

/// The key code for `enter`.
pub const KEY_ENTER: u32 = 10;

/// The key code for `next`.
pub const KEY_NEXT: u32 = 9;

/// The key code for `previous`.
pub const KEY_PREV: u32 = 11;

/// The key code for `home`.
pub const KEY_HOME: u32 = 2;

/// The key code for `end`.
pub const KEY_END: u32 = 3;

/// Input device type.
#[derive(Clone, Copy, Debug, PartialEq, Eq, Structural)]
pub enum IndevType {
    /// Pointer (touch or mouse).
    Pointer,
    /// Keypad (keyboard).
    Keypad,
    /// Hardware buttons at fixed screen positions.
    Button,
    /// Rotary encoder.
    Encoder,
}

impl IndevType {
    /// The C ABI code of this device type.
    pub open spec fn code(self) -> u32 {
        match self {
            IndevType::Pointer => 1,
            IndevType::Keypad => 2,
            IndevType::Button => 3,
            IndevType::Encoder => 4,
        }
    }

    /// Convert to the C ABI code.
    pub fn to_raw(self) -> (r: u32)
        ensures
            r == self.code(),
    {
        match self {
            IndevType::Pointer => 1,
            IndevType::Keypad => 2,
            IndevType::Button => 3,
            IndevType::Encoder => 4,
        }
    }

    /// The typed device type a C ABI code reads back as, if any.
    pub open spec fn spec_from_raw(raw: u32) -> Option<IndevType> {
        if raw == 1 {
            Some(IndevType::Pointer)
        } else if raw == 2 {
            Some(IndevType::Keypad)
        } else if raw == 3 {
            Some(IndevType::Button)
        } else if raw == 4 {
            Some(IndevType::Encoder)
        } else {
            None
        }
    }

    /// Read back from a C ABI code.
    pub fn from_raw(raw: u32) -> (r: Option<IndevType>)
        ensures
            r == IndevType::spec_from_raw(raw),
    {
        match raw {
            1 => Some(IndevType::Pointer),
            2 => Some(IndevType::Keypad),
            3 => Some(IndevType::Button),
            4 => Some(IndevType::Encoder),
            _ => None,
        }
    }

    /// Reading the written code back returns the same device type.
    pub proof fn lemma_code_roundtrip(self)
        ensures
            IndevType::spec_from_raw(self.code()) == Some(self),
    {
    }
}

/// Input device state.
#[derive(Clone, Copy, Debug, PartialEq, Eq, Structural)]
pub enum IndevState {
    Released,
    Pressed,
}

impl IndevState {
    /// The C ABI code of this state.
    pub open spec fn code(self) -> u32 {
        match self {
            IndevState::Released => 0,
            IndevState::Pressed => 1,
        }
    }

    /// Convert to the C ABI code.
    pub fn to_raw(self) -> (r: u32)
        ensures
            r == self.code(),
    {
        match self {
            IndevState::Released => 0,
            IndevState::Pressed => 1,
        }
    }
}

/// Key codes for keypad input.
#[derive(Clone, Copy, Debug, PartialEq, Eq, Structural)]
pub enum Key {
    Up,
    Down,
    Left,
    Right,
    Enter,
    Backspace,
    Esc,
    Next,
    Prev,
    Home,
    End,
    Del,
    /// Custom key code.
    Custom(u32),
}

impl Key {
    /// The C ABI code of this key.
    pub open spec fn code(self) -> u32 {
        match self {
            Key::Up => KEY_UP,
            Key::Down => KEY_DOWN,
            Key::Left => KEY_LEFT,
            Key::Right => KEY_RIGHT,
            Key::Enter => KEY_ENTER,
            Key::Backspace => KEY_BACKSPACE,
            Key::Esc => KEY_ESC,
            Key::Next => KEY_NEXT,
            Key::Prev => KEY_PREV,
            Key::Home => KEY_HOME,
            Key::End => KEY_END,
            Key::Del => KEY_DEL,
            Key::Custom(k) => k,
        }
    }

    /// The key a C ABI code reads back as: a named key for the codes
    /// above, and a custom key for every other code.
    pub open spec fn spec_from_raw(raw: u32) -> Key {
        if raw == KEY_UP {
            Key::Up
        } else if raw == KEY_DOWN {
            Key::Down
        } else if raw == KEY_LEFT {
            Key::Left
        } else if raw == KEY_RIGHT {
            Key::Right
        } else if raw == KEY_ENTER {
            Key::Enter
        } else if raw == KEY_BACKSPACE {
            Key::Backspace
        } else if raw == KEY_ESC {
            Key::Esc
        } else if raw == KEY_NEXT {
            Key::Next
        } else if raw == KEY_PREV {
            Key::Prev
        } else if raw == KEY_HOME {
            Key::Home
        } else if raw == KEY_END {
            Key::End
        } else if raw == KEY_DEL {
            Key::Del
        } else {
            Key::Custom(raw)
        }
    }

    /// Convert to the C ABI code.
    pub fn to_raw(self) -> (r: u32)
        ensures
            r == self.code(),
    {
        match self {
            Key::Up => KEY_UP,
            Key::Down => KEY_DOWN,
            Key::Left => KEY_LEFT,
            Key::Right => KEY_RIGHT,
            Key::Enter => KEY_ENTER,
            Key::Backspace => KEY_BACKSPACE,
            Key::Esc => KEY_ESC,
            Key::Next => KEY_NEXT,
            Key::Prev => KEY_PREV,
            Key::Home => KEY_HOME,
            Key::End => KEY_END,
            Key::Del => KEY_DEL,
            Key::Custom(k) => k,
        }
    }

    /// Read back from a C ABI code.
    pub fn from_raw(raw: u32) -> (k: Key)
        ensures
            k == Key::spec_from_raw(raw),
    {
        match raw {
            KEY_UP => Key::Up,
            KEY_DOWN => Key::Down,
            KEY_LEFT => Key::Left,
            KEY_RIGHT => Key::Right,
            KEY_ENTER => Key::Enter,
            KEY_BACKSPACE => Key::Backspace,
            KEY_ESC => Key::Esc,
            KEY_NEXT => Key::Next,
            KEY_PREV => Key::Prev,
            KEY_HOME => Key::Home,
            KEY_END => Key::End,
            KEY_DEL => Key::Del,
            k => Key::Custom(k),
        }
    }

    /// Writing the key read from a code gives back that code: no key
    /// information is lost on the way through the C ABI.
    pub proof fn lemma_raw_roundtrip(raw: u32)
        ensures
            Key::spec_from_raw(raw).code() == raw,
    {
    }
}

/// Pointer input data.
#[derive(Clone, Copy, Debug, PartialEq, Eq, Structural)]
pub struct PointerData {
    pub point: Point,
    pub state: IndevState,
}

/// Keypad input data.
#[derive(Clone, Copy, Debug, PartialEq, Eq, Structural)]
pub struct KeypadData {
    pub key: Key,
    pub state: IndevState,
}

/// Encoder input data.
#[derive(Clone, Copy, Debug, PartialEq, Eq, Structural)]
pub struct EncoderData {
    /// Rotation steps (positive is clockwise).
    pub diff: i16,
    /// Button state.
    pub state: IndevState,
}

/// Scroll direction.
#[derive(Clone, Copy, Debug, PartialEq, Eq, Structural)]
pub enum ScrollDir {
    NoDir,
    Left,
    Right,
    Top,
    Bottom,
}

impl ScrollDir {
    /// The scroll direction a C ABI direction code reads back as; codes
    /// that name no single direction read as `NoDir`.
    pub open spec fn spec_from_raw(raw: u8) -> ScrollDir {
        if raw == 1 {
            ScrollDir::Left
        } else if raw == 2 {
            ScrollDir::Right
        } else if raw == 4 {
            ScrollDir::Top
        } else if raw == 8 {
            ScrollDir::Bottom
        } else {
            ScrollDir::NoDir
        }
    }

    /// Read back from a C ABI direction code.
    pub fn from_raw(raw: u8) -> (d: ScrollDir)
        ensures
            d == ScrollDir::spec_from_raw(raw),
    {
        match raw {
            1 => ScrollDir::Left,
            2 => ScrollDir::Right,
            4 => ScrollDir::Top,
            8 => ScrollDir::Bottom,
            _ => ScrollDir::NoDir,
        }
    }
}

/// Gesture direction.
#[derive(Clone, Copy, Debug, PartialEq, Eq, Structural)]
pub enum GestureDir {
    NoDir,
    Left,
    Right,
    Top,
    Bottom,
}

impl GestureDir {
    /// The gesture direction a C ABI direction code reads back as; codes
    /// that name no single direction read as `NoDir`.
    pub open spec fn spec_from_raw(raw: u8) -> GestureDir {
        if raw == 1 {
            GestureDir::Left
        } else if raw == 2 {
            GestureDir::Right
        } else if raw == 4 {
            GestureDir::Top
        } else if raw == 8 {
            GestureDir::Bottom
        } else {
            GestureDir::NoDir
        }
    }

    /// Read back from a C ABI direction code.
    pub fn from_raw(raw: u8) -> (d: GestureDir)
        ensures
            d == GestureDir::spec_from_raw(raw),
    {
        match raw {
            1 => GestureDir::Left,
            2 => GestureDir::Right,
            4 => GestureDir::Top,
            8 => GestureDir::Bottom,
            _ => GestureDir::NoDir,
        }
    }
}

/// An input device, modeled by its configuration and the data it last
/// reported.
#[derive(Clone, Copy, Debug)]
pub struct Indev {
    pub itype: IndevType,
    pub enabled: bool,
    pub long_press_time: u16,
    pub scroll_limit: u8,
    pub scroll_throw: u8,
    /// The last reported pointer position.
    pub last_point: Point,
    /// The last reported key code.
    pub last_key: u32,
    /// The last reported press state.
    pub last_state: IndevState,
    /// The sum of reported encoder steps.
    pub encoder_pos: i32,
}

impl Indev {
    /// A fresh device of the given type, enabled, with the default
    /// timings, and with nothing reported yet.
    pub open spec fn initial(itype: IndevType) -> Indev {
        Indev {
            itype,
            enabled: true,
            long_press_time: 400,
            scroll_limit: 10,
            scroll_throw: 10,
            last_point: Point { x: 0, y: 0 },
            last_key: 0,
            last_state: IndevState::Released,
            encoder_pos: 0,
        }
    }

    /// Create a new input device of the given type.
    pub fn new(itype: IndevType) -> (r: Option<Indev>)
        ensures
            r == Some(Indev::initial(itype)),
    {
        Some(
            Indev {
                itype,
                enabled: true,
                long_press_time: 400,
                scroll_limit: 10,
                scroll_throw: 10,
                last_point: Point { x: 0, y: 0 },
                last_key: 0,
                last_state: IndevState::Released,
                encoder_pos: 0,
            },
        )
    }

    /// Create a new pointer input device.
    pub fn new_pointer() -> (r: Option<Indev>)
        ensures
            r == Some(Indev::initial(IndevType::Pointer)),
    {
        Indev::new(IndevType::Pointer)
    }

    /// Create a new keypad input device.
    pub fn new_keypad() -> (r: Option<Indev>)
        ensures
            r == Some(Indev::initial(IndevType::Keypad)),
    {
        Indev::new(IndevType::Keypad)
    }

    /// Create a new encoder input device.
    pub fn new_encoder() -> (r: Option<Indev>)
        ensures
            r == Some(Indev::initial(IndevType::Encoder)),
    {
        Indev::new(IndevType::Encoder)
    }

    /// Get the input device type.
    pub fn indev_type(&self) -> (r: Option<IndevType>)
        ensures
            r == Some(self.itype),
    {
        Some(self.itype)
    }

    /// Enable or disable the input device.
    pub fn enable(&mut self, en: bool)
        ensures
            *final(self) == (Indev { enabled: en, ..*old(self) }),
    {
        self.enabled = en;
    }

    /// Record one pointer reading.
    pub fn push_pointer(&mut self, data: PointerData)
        ensures
            *final(self) == (Indev {
                last_point: data.point,
                last_state: data.state,
                ..*old(self)
            }),
    {
        self.last_point = data.point;
        self.last_state = data.state;
    }

    /// Record one keypad reading.
    pub fn push_keypad(&mut self, data: KeypadData)
        ensures
            *final(self) == (Indev {
                last_key: data.key.code(),
                last_state: data.state,
                ..*old(self)
            }),
    {
        self.last_key = data.key.to_raw();
        self.last_state = data.state;
    }

    /// Record one encoder reading; the rotation steps accumulate,
    /// saturating at the position type's limits.
    pub fn push_encoder(&mut self, data: EncoderData)
        ensures
            *final(self) == (Indev {
                encoder_pos: crate::widgets::saturate_i32(
                    old(self).encoder_pos + data.diff,
                ),
                last_state: data.state,
                ..*old(self)
            }),
    {
        self.encoder_pos = crate::widgets::sat_add_i32(self.encoder_pos, data.diff as i32);
        self.last_state = data.state;
    }

    /// Get the last reported pointer position.
    pub fn point(&self) -> (p: Point)
        ensures
            p == self.last_point,
    {
        self.last_point
    }

    /// Get the last reported key.
    pub fn key(&self) -> (k: Key)
        ensures
            k == Key::spec_from_raw(self.last_key),
    {
        Key::from_raw(self.last_key)
    }

    /// Set the long press time in milliseconds.
    pub fn set_long_press_time(&mut self, time_ms: u16)
        ensures
            *final(self) == (Indev { long_press_time: time_ms, ..*old(self) }),
    {
        self.long_press_time = time_ms;
    }

    /// Set the minimum drag distance in pixels to start scrolling.
    pub fn set_scroll_limit(&mut self, limit: u8)
        ensures
            *final(self) == (Indev { scroll_limit: limit, ..*old(self) }),
    {
        self.scroll_limit = limit;
    }

    /// Set the scroll momentum after release.
    pub fn set_scroll_throw(&mut self, throw: u8)
        ensures
            *final(self) == (Indev { scroll_throw: throw, ..*old(self) }),
    {
        self.scroll_throw = throw;
    }
}

} // verus!
