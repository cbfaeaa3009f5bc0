//! LED widget.

use super::{Obj, Widget};
use crate::color::Color;
use vstd::prelude::*;

verus! {

/// The brightness of an LED that is off.
pub const LED_BRIGHT_MIN: u8 = 80;

/// The brightness of an LED that is fully on.
pub const LED_BRIGHT_MAX: u8 = 255;

/// LED widget: a light with a color and a brightness.
#[derive(Clone, Copy, Debug)]
pub struct Led {
    pub base: Obj,
    pub color: Color,
    pub brightness: u8,
}

impl Led {
    /// Create a new LED as a child of the given parent, fully on.
    pub fn new<W: Widget>(parent: &mut W) -> (r: Option<Led>)
        requires
            old(parent).base_spec().child_count < u64::MAX,
        ensures
            *final(parent) == old(parent).with_base_spec(
                old(parent).base_spec().with_child_inc(),
            ),
            r matches Some(l) && l.base == Obj::initial() && l.brightness == LED_BRIGHT_MAX,
    {
        let pb = parent.base_mut();
        pb.child_count = pb.child_count + 1;
        Some(
            Led {
                base: Obj::new_initial(),
                color: Color { red: 0, green: 0, blue: 255 },
                brightness: LED_BRIGHT_MAX,
            },
        )
    }

    /// Set the LED color.
    pub fn set_color(&mut self, color: Color)
        ensures
            *final(self) == (Led { color, ..*old(self) }),
    {
        self.color = color;
    }

    /// Set the brightness (the off level is 80, fully on is 255).
    pub fn set_brightness(&mut self, bright: u8)
        ensures
            *final(self) == (Led { brightness: bright, ..*old(self) }),
    {
        self.brightness = bright;
    }

    /// Get the brightness.
    pub fn brightness(&self) -> (r: u8)
        ensures
            r == self.brightness,
    {
        self.brightness
    }

    /// Turn the LED fully on.
    pub fn on(&mut self)
        ensures
            *final(self) == (Led { brightness: LED_BRIGHT_MAX, ..*old(self) }),
    {
        self.brightness = LED_BRIGHT_MAX;
    }

    /// Turn the LED off (to the minimum brightness).
    pub fn off(&mut self)
        ensures
            *final(self) == (Led { brightness: LED_BRIGHT_MIN, ..*old(self) }),
    {
        self.brightness = LED_BRIGHT_MIN;
    }

    /// Toggle the LED: off when brighter than halfway, on otherwise.
    pub fn toggle(&mut self)
        ensures
            *final(self) == (Led {
                brightness: if old(self).brightness > (LED_BRIGHT_MIN + LED_BRIGHT_MAX) / 2 {
                    LED_BRIGHT_MIN
                } else {
                    LED_BRIGHT_MAX
                },
                ..*old(self)
            }),
    {
        if self.brightness > ((LED_BRIGHT_MIN as u16 + LED_BRIGHT_MAX as u16) / 2) as u8 {
            self.off();
        } else {
            self.on();
        }
    }
}

impl Widget for Led {
    open spec fn base_spec(&self) -> Obj {
        self.base
    }

    open spec fn with_base_spec(&self, b: Obj) -> Led {
        Led { base: b, ..*self }
    }

    fn base(&self) -> (r: &Obj) {
        &self.base
    }

    fn base_mut(&mut self) -> (r: &mut Obj) {
        &mut self.base
    }
}

} // verus!
