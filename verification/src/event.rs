//! Event handling: typed event codes and event data.

use vstd::prelude::*;

verus! {

/// Event codes for widgets.
#[derive(Clone, Copy, Debug, PartialEq, Eq, Structural)]
pub enum EventCode {
    /// Widget pressed.
    Pressed,
    /// Widget still being pressed (sent continuously while pressing).
    Pressing,
    /// Widget still pressed but the press slid out of its area.
    PressLost,
    /// Widget released.
    Released,
    /// Widget pressed for a short period and then released.
    ShortClicked,
    /// Widget clicked (released after pressing).
    Clicked,
    /// Widget pressed for a long time.
    LongPressed,
    /// Sent repeatedly after a long press.
    LongPressedRepeat,
    /// Focus received.
    Focused,
    /// Focus lost.
    Defocused,
    /// Value changed.
    ValueChanged,
    /// Ready (an animation completed, for example).
    Ready,
    /// Cancelled.
    Cancel,
    /// Widget is being deleted.
    Delete,
    /// Child added.
    ChildCreated,
    /// Child removed.
    ChildDeleted,
    /// Child changed.
    ChildChanged,
    /// Screen load started.
    ScreenLoadStart,
    /// Screen loaded.
    ScreenLoaded,
    /// Screen unload started.
    ScreenUnloadStart,
    /// Screen unloaded.
    ScreenUnloaded,
    /// Widget size changed.
    SizeChanged,
    /// Widget style changed.
    StyleChanged,
    /// All events, for filtering.
    All,
}

impl EventCode {
    /// The C ABI code of this event.
    pub open spec fn code(self) -> u32 {
        match self {
            EventCode::All => 0,
            EventCode::Pressed => 1,
            EventCode::Pressing => 2,
            EventCode::PressLost => 3,
            EventCode::ShortClicked => 4,
            EventCode::LongPressed => 8,
            EventCode::LongPressedRepeat => 9,
            EventCode::Clicked => 10,
            EventCode::Released => 11,
            EventCode::Focused => 19,
            EventCode::Defocused => 20,
            EventCode::ValueChanged => 35,
            EventCode::Ready => 38,
            EventCode::Cancel => 39,
            EventCode::Delete => 41,
            EventCode::ChildChanged => 42,
            EventCode::ChildCreated => 43,
            EventCode::ChildDeleted => 44,
            EventCode::ScreenUnloadStart => 45,
            EventCode::ScreenLoadStart => 46,
            EventCode::ScreenLoaded => 47,
            EventCode::ScreenUnloaded => 48,
            EventCode::SizeChanged => 49,
            EventCode::StyleChanged => 50,
        }
    }

    /// The typed code a C ABI code reads back as, if it names one of the
    /// codes above.
    pub open spec fn spec_from_raw(raw: u32) -> Option<EventCode> {
        if raw == 0 {
            Some(EventCode::All)
        } else if raw == 1 {
            Some(EventCode::Pressed)
        } else if raw == 2 {
            Some(EventCode::Pressing)
        } else if raw == 3 {
            Some(EventCode::PressLost)
        } else if raw == 4 {
            Some(EventCode::ShortClicked)
        } else if raw == 8 {
            Some(EventCode::LongPressed)
        } else if raw == 9 {
            Some(EventCode::LongPressedRepeat)
        } else if raw == 10 {
            Some(EventCode::Clicked)
        } else if raw == 11 {
            Some(EventCode::Released)
        } else if raw == 19 {
            Some(EventCode::Focused)
        } else if raw == 20 {
            Some(EventCode::Defocused)
        } else if raw == 35 {
            Some(EventCode::ValueChanged)
        } else if raw == 38 {
            Some(EventCode::Ready)
        } else if raw == 39 {
            Some(EventCode::Cancel)
        } else if raw == 41 {
            Some(EventCode::Delete)
        } else if raw == 42 {
            Some(EventCode::ChildChanged)
        } else if raw == 43 {
            Some(EventCode::ChildCreated)
        } else if raw == 44 {
            Some(EventCode::ChildDeleted)
        } else if raw == 45 {
            Some(EventCode::ScreenUnloadStart)
        } else if raw == 46 {
            Some(EventCode::ScreenLoadStart)
        } else if raw == 47 {
            Some(EventCode::ScreenLoaded)
        } else if raw == 48 {
            Some(EventCode::ScreenUnloaded)
        } else if raw == 49 {
            Some(EventCode::SizeChanged)
        } else if raw == 50 {
            Some(EventCode::StyleChanged)
        } else {
            None
        }
    }

    /// Read a typed event code back from a C ABI code.
    pub fn from_raw(raw: u32) -> (r: Option<EventCode>)
        ensures
            r == EventCode::spec_from_raw(raw),
    {
        match raw {
            0 => Some(EventCode::All),
            1 => Some(EventCode::Pressed),
            2 => Some(EventCode::Pressing),
            3 => Some(EventCode::PressLost),
            4 => Some(EventCode::ShortClicked),
            8 => Some(EventCode::LongPressed),
            9 => Some(EventCode::LongPressedRepeat),
            10 => Some(EventCode::Clicked),
            11 => Some(EventCode::Released),
            19 => Some(EventCode::Focused),
            20 => Some(EventCode::Defocused),
            35 => Some(EventCode::ValueChanged),
            38 => Some(EventCode::Ready),
            39 => Some(EventCode::Cancel),
            41 => Some(EventCode::Delete),
            42 => Some(EventCode::ChildChanged),
            43 => Some(EventCode::ChildCreated),
            44 => Some(EventCode::ChildDeleted),
            45 => Some(EventCode::ScreenUnloadStart),
            46 => Some(EventCode::ScreenLoadStart),
            47 => Some(EventCode::ScreenLoaded),
            48 => Some(EventCode::ScreenUnloaded),
            49 => Some(EventCode::SizeChanged),
            50 => Some(EventCode::StyleChanged),
            _ => None,
        }
    }

    /// Convert to the C ABI code.
    pub fn to_raw(self) -> (r: u32)
        ensures
            r == self.code(),
    {
        match self {
            EventCode::All => 0,
            EventCode::Pressed => 1,
            EventCode::Pressing => 2,
            EventCode::PressLost => 3,
            EventCode::ShortClicked => 4,
            EventCode::LongPressed => 8,
            EventCode::LongPressedRepeat => 9,
            EventCode::Clicked => 10,
            EventCode::Released => 11,
            EventCode::Focused => 19,
            EventCode::Defocused => 20,
            EventCode::ValueChanged => 35,
            EventCode::Ready => 38,
            EventCode::Cancel => 39,
            EventCode::Delete => 41,
            EventCode::ChildChanged => 42,
            EventCode::ChildCreated => 43,
            EventCode::ChildDeleted => 44,
            EventCode::ScreenUnloadStart => 45,
            EventCode::ScreenLoadStart => 46,
            EventCode::ScreenLoaded => 47,
            EventCode::ScreenUnloaded => 48,
            EventCode::SizeChanged => 49,
            EventCode::StyleChanged => 50,
        }
    }

    /// Reading the written code back returns the same event code: the
    /// mapping to the C ABI loses nothing.
    pub proof fn lemma_code_roundtrip(self)
        ensures
            EventCode::spec_from_raw(self.code()) == Some(self),
    {
    }
}

/// The data of one delivered event.
#[derive(Clone, Copy, Debug)]
pub struct Event {
    /// The C ABI code of the event.
    pub code_raw: u32,
    /// Whether propagation to parent widgets was stopped.
    pub bubbling_stopped: bool,
    /// Whether further processing of this event was stopped.
    pub processing_stopped: bool,
}

impl Event {
    /// Create an event with the given code.
    pub fn new(code: EventCode) -> (e: Event)
        ensures
            e == (Event {
                code_raw: code.code(),
                bubbling_stopped: false,
                processing_stopped: false,
            }),
    {
        Event { code_raw: code.to_raw(), bubbling_stopped: false, processing_stopped: false }
    }

    /// Get the typed event code, if the raw code names one.
    pub fn code(&self) -> (r: Option<EventCode>)
        ensures
            r == EventCode::spec_from_raw(self.code_raw),
    {
        EventCode::from_raw(self.code_raw)
    }

    /// Get the raw event code.
    pub fn code_raw(&self) -> (r: u32)
        ensures
            r == self.code_raw,
    {
        self.code_raw
    }

    /// Stop propagation of this event to parent widgets.
    pub fn stop_bubbling(&mut self)
        ensures
            *final(self) == (Event { bubbling_stopped: true, ..*old(self) }),
    {
        self.bubbling_stopped = true;
    }

    /// Stop further processing of this event.
    pub fn stop_processing(&mut self)
        ensures
            *final(self) == (Event { processing_stopped: true, ..*old(self) }),
    {
        self.processing_stopped = true;
    }
}

} // verus!
