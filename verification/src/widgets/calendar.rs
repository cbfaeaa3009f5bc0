//! Calendar widget.

use super::{Obj, Widget};
use vstd::prelude::*;

verus! {

/// A calendar date.
#[derive(Clone, Copy, Debug, PartialEq, Eq, Structural)]
pub struct CalendarDate {
    /// Full year, such as 2024.
    pub year: u32,
    /// Month, 1 to 12.
    pub month: u32,
    /// Day of month, 1 to 31.
    pub day: u32,
}

impl CalendarDate {
    /// Whether the month and day fields are inside the calendar ranges.
    pub open spec fn valid(self) -> bool {
        &&& 1 <= self.month <= 12
        &&& 1 <= self.day <= 31
    }

    /// Create a new date.
    pub fn new(year: u32, month: u32, day: u32) -> (d: CalendarDate)
        ensures
            d == (CalendarDate { year, month, day }),
    {
        CalendarDate { year, month, day }
    }

    /// Convert to the C ABI date record: year, month and day as narrow
    /// integers.
    pub fn to_raw(self) -> (r: (u16, u8, u8))
        requires
            self.year <= u16::MAX,
            self.valid(),
        ensures
            r.0 == self.year,
            r.1 == self.month,
            r.2 == self.day,
    {
        (self.year as u16, self.month as u8, self.day as u8)
    }

    /// Read back from the C ABI date record.
    pub fn from_raw(year: u16, month: u8, day: u8) -> (d: CalendarDate)
        ensures
            d == (CalendarDate { year: year as u32, month: month as u32, day: day as u32 }),
    {
        CalendarDate { year: year as u32, month: month as u32, day: day as u32 }
    }

    /// A valid date survives the round trip through the C ABI record.
    pub proof fn lemma_raw_roundtrip(self)
        requires
            self.year <= u16::MAX,
            self.valid(),
        ensures
            (CalendarDate {
                year: self.year as u16 as u32,
                month: self.month as u8 as u32,
                day: self.day as u8 as u32,
            }) == self,
    {
    }
}

/// Calendar widget: a month view with a marked current date.
#[derive(Clone, Copy, Debug)]
pub struct Calendar {
    pub base: Obj,
    /// The date highlighted as today.
    pub today: CalendarDate,
    /// The month shown, through one of its dates.  Navigation changes it
    /// inside the wrapped library; the wrapper only reads it.
    pub shown: CalendarDate,
    /// The last pressed date, if any.
    pub pressed: Option<CalendarDate>,
    /// Whether header arrows were added.
    pub header_arrow: bool,
    /// Whether a header dropdown was added.
    pub header_dropdown: bool,
}

impl Calendar {
    /// Create a new calendar as a child of the given parent, showing
    /// January 1st of year 1.
    pub fn new<W: Widget>(parent: &mut W) -> (r: Option<Calendar>)
        requires
            old(parent).base_spec().child_count < u64::MAX,
        ensures
            *final(parent) == old(parent).with_base_spec(
                old(parent).base_spec().with_child_inc(),
            ),
            r matches Some(c) && c.base == Obj::initial() && c.today == (CalendarDate {
                year: 1,
                month: 1,
                day: 1,
            }) && c.shown == c.today && c.pressed is None && !c.header_arrow
                && !c.header_dropdown,
    {
        let pb = parent.base_mut();
        pb.child_count = pb.child_count + 1;
        let origin = CalendarDate { year: 1, month: 1, day: 1 };
        Some(
            Calendar {
                base: Obj::new_initial(),
                today: origin,
                shown: origin,
                pressed: None,
                header_arrow: false,
                header_dropdown: false,
            },
        )
    }

    /// Set the date highlighted as today.
    pub fn set_today(&mut self, date: CalendarDate)
        requires
            date.valid(),
        ensures
            *final(self) == (Calendar { today: date, ..*old(self) }),
    {
        self.today = date;
    }

    /// Set the currently shown month and year.
    ///
    /// The wrapped library has no setter for the shown date: the calendar
    /// navigates from today's date and user interaction.  The call is
    /// accepted and the date is ignored; use [`Calendar::set_today`] to
    /// set the current date instead.
    pub fn set_shown_date(&mut self, _date: CalendarDate)
        ensures
            *final(self) == *old(self),
    {
    }

    /// The date highlighted as today.
    pub fn today(&self) -> (r: CalendarDate)
        ensures
            r == self.today,
    {
        self.today
    }

    /// The month shown, through one of its dates.
    pub fn shown_date(&self) -> (r: CalendarDate)
        ensures
            r == self.shown,
    {
        self.shown
    }

    /// The last pressed date, if any.
    pub fn pressed_date(&self) -> (r: Option<CalendarDate>)
        ensures
            r == self.pressed,
    {
        self.pressed
    }

    /// Add previous and next arrows to the header.
    pub fn add_header_arrow(&mut self) -> (r: Option<Obj>)
        ensures
            *final(self) == (Calendar { header_arrow: true, ..*old(self) }),
            r == Some(Obj::initial()),
    {
        self.header_arrow = true;
        Some(Obj::new_initial())
    }

    /// Add a month dropdown to the header.
    pub fn add_header_dropdown(&mut self) -> (r: Option<Obj>)
        ensures
            *final(self) == (Calendar { header_dropdown: true, ..*old(self) }),
            r == Some(Obj::initial()),
    {
        self.header_dropdown = true;
        Some(Obj::new_initial())
    }
}

impl Widget for Calendar {
    open spec fn base_spec(&self) -> Obj {
        self.base
    }

    open spec fn with_base_spec(&self, b: Obj) -> Calendar {
        Calendar { base: b, ..*self }
    }

    fn base(&self) -> (r: &Obj) {
        &self.base
    }

    fn base_mut(&mut self) -> (r: &mut Obj) {
        &mut self.base
    }
}

} // verus!
