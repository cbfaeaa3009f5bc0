//! Subject and observer support for reactive data binding.
//!
//! A subject holds a value and notifies bound observers when it changes.
//! Each subject is modeled by its current and previous value and by how
//! many observers are bound to it.

use crate::color::Color;
use crate::widgets::Widget;
use vstd::prelude::*;

verus! {

/// A subscription to a subject.
#[derive(Clone, Copy, Debug)]
pub struct Observer {
    /// Whether the subscription is still in place.
    pub active: bool,
}

impl Observer {
    /// Remove this observer: it stops receiving updates.
    pub fn remove(self) {
    }
}

/// Common trait for all subject types.
pub trait Subject: Sized {
    /// How many observers are bound to this subject.
    spec fn observer_count_spec(&self) -> u64;

    /// The subject with its observer count replaced and everything else
    /// kept.
    spec fn with_observer_count_spec(&self, n: u64) -> Self;

    /// Record one more bound observer.
    fn attach_observer(&mut self)
        requires
            old(self).observer_count_spec() < u64::MAX,
        ensures
            *final(self) == old(self).with_observer_count_spec(
                (old(self).observer_count_spec() + 1) as u64,
            ),
    ;

    /// Manually notify all observers of a change; the subject's state
    /// does not change.
    fn notify(&mut self)
        ensures
            *final(self) == *old(self),
    {
    }
}

/// An `int` clamped into the closed interval from `min` to `max`.
pub open spec fn clamp_i32(v: int, min: int, max: int) -> int {
    if v < min {
        min
    } else if v > max {
        max
    } else {
        v
    }
}

/// Integer subject for reactive integer values.
#[derive(Clone, Copy, Debug)]
pub struct IntSubject {
    pub value: i32,
    pub previous: i32,
    /// The smallest value a set may store.
    pub min: i32,
    /// The largest value a set may store.
    pub max: i32,
    pub observer_count: u64,
}

impl IntSubject {
    /// Create a new integer subject with an initial value and the full
    /// value range.
    pub fn new(initial_value: i32) -> (s: IntSubject)
        ensures
            s == (IntSubject {
                value: initial_value,
                previous: initial_value,
                min: i32::MIN,
                max: i32::MAX,
                observer_count: 0,
            }),
    {
        IntSubject {
            value: initial_value,
            previous: initial_value,
            min: i32::MIN,
            max: i32::MAX,
            observer_count: 0,
        }
    }

    /// Set the current value, clamped into the allowed range; the old
    /// value becomes the previous one, and observers are notified.
    pub fn set(&mut self, value: i32)
        requires
            old(self).min <= old(self).max,
        ensures
            *final(self) == (IntSubject {
                value: clamp_i32(value as int, old(self).min as int, old(self).max as int) as i32,
                previous: old(self).value,
                ..*old(self)
            }),
    {
        let clamped: i32 = if value < self.min {
            self.min
        } else if value > self.max {
            self.max
        } else {
            value
        };
        self.previous = self.value;
        self.value = clamped;
    }

    /// Get the current value.
    pub fn get(&self) -> (r: i32)
        ensures
            r == self.value,
    {
        self.value
    }

    /// Get the value before the last change.
    pub fn previous(&self) -> (r: i32)
        ensures
            r == self.previous,
    {
        self.previous
    }

    /// Set the minimum value later sets may store.
    pub fn set_min(&mut self, min: i32)
        ensures
            *final(self) == (IntSubject { min, ..*old(self) }),
    {
        self.min = min;
    }

    /// Set the maximum value later sets may store.
    pub fn set_max(&mut self, max: i32)
        ensures
            *final(self) == (IntSubject { max, ..*old(self) }),
    {
        self.max = max;
    }
}

impl Subject for IntSubject {
    open spec fn observer_count_spec(&self) -> u64 {
        self.observer_count
    }

    open spec fn with_observer_count_spec(&self, n: u64) -> IntSubject {
        IntSubject { observer_count: n, ..*self }
    }

    fn attach_observer(&mut self) {
        self.observer_count = self.observer_count + 1;
    }
}

/// A byte sequence cut to what a buffer with one byte reserved for the
/// terminator can hold.
pub open spec fn fit_to_buffer(s: Seq<u8>, capacity: nat) -> Seq<u8> {
    if s.len() <= capacity - 1 {
        s
    } else {
        s.subrange(0, capacity - 1)
    }
}

/// String subject for reactive text values.
///
/// The subject owns a buffer of fixed capacity; stored values are cut to
/// the buffer's capacity, one byte being reserved for the terminator.
#[derive(Debug)]
pub struct StringSubject {
    /// The buffer capacity in bytes, terminator included.
    pub capacity: usize,
    pub value: Vec<u8>,
    pub previous: Vec<u8>,
    pub observer_count: u64,
}

impl StringSubject {
    /// Create a new string subject with the given buffer capacity and
    /// initial value.  The initial value is cut to the capacity.
    pub fn new(capacity: usize, initial: &[u8]) -> (s: StringSubject)
        requires
            capacity >= 1,
        ensures
            s.capacity == capacity,
            s.value@ == fit_to_buffer(initial@, capacity as nat),
            s.previous@ == Seq::<u8>::empty(),
            s.observer_count == 0,
    {
        let value = copy_fitted(initial, capacity);
        StringSubject { capacity, value, previous: Vec::new(), observer_count: 0 }
    }

    /// Set the text value, cut to the buffer capacity; the old value
    /// becomes the previous one, and observers are notified.
    pub fn set(&mut self, value: &[u8])
        requires
            old(self).capacity >= 1,
        ensures
            final(self).value@ == fit_to_buffer(value@, old(self).capacity as nat),
            final(self).previous@ == old(self).value@,
            final(self).capacity == old(self).capacity,
            final(self).observer_count == old(self).observer_count,
    {
        let mut fitted = copy_fitted(value, self.capacity);
        core::mem::swap(&mut self.value, &mut fitted);
        self.previous = fitted;
    }

    /// Get the current text value.
    pub fn get(&self) -> (r: &Vec<u8>)
        ensures
            r@ == self.value@,
    {
        &self.value
    }

    /// Get the text value before the last change.
    pub fn previous(&self) -> (r: &Vec<u8>)
        ensures
            r@ == self.previous@,
    {
        &self.previous
    }
}

impl Subject for StringSubject {
    open spec fn observer_count_spec(&self) -> u64 {
        self.observer_count
    }

    open spec fn with_observer_count_spec(&self, n: u64) -> StringSubject {
        StringSubject { observer_count: n, ..*self }
    }

    fn attach_observer(&mut self) {
        self.observer_count = self.observer_count + 1;
    }
}

/// What a buffer holds never exceeds its capacity, one byte being
/// reserved for the terminator.
pub proof fn lemma_fit_to_buffer_len(s: Seq<u8>, capacity: nat)
    requires
        capacity >= 1,
    ensures
        fit_to_buffer(s, capacity).len() <= capacity - 1,
{
}

/// Copy at most `capacity - 1` bytes of a slice.
fn copy_fitted(src: &[u8], capacity: usize) -> (v: Vec<u8>)
    requires
        capacity >= 1,
    ensures
        v@ == fit_to_buffer(src@, capacity as nat),
{
    let n: usize = if src.len() <= capacity - 1 {
        src.len()
    } else {
        capacity - 1
    };
    let mut v: Vec<u8> = Vec::new();
    let mut i: usize = 0;
    while i < n
        invariant
            i <= n,
            n <= src.len(),
            v@ == src@.subrange(0, i as int),
        decreases n - i,
    {
        v.push(src[i]);
        i = i + 1;
        proof {
            assert(v@ == src@.subrange(0, i as int));
        }
    }
    proof {
        if src@.len() <= capacity - 1 {
            assert(src@.subrange(0, src@.len() as int) == src@);
        }
    }
    v
}

/// Pointer subject for reactive pointer values.
///
/// The pointed-to address is carried as a plain machine word.
#[derive(Clone, Copy, Debug)]
pub struct PointerSubject {
    pub value: usize,
    pub previous: usize,
    pub observer_count: u64,
}

impl PointerSubject {
    /// Create a new pointer subject.
    pub fn new(initial: usize) -> (s: PointerSubject)
        ensures
            s == (PointerSubject { value: initial, previous: initial, observer_count: 0 }),
    {
        PointerSubject { value: initial, previous: initial, observer_count: 0 }
    }

    /// Set the pointer value; the old value becomes the previous one.
    pub fn set(&mut self, ptr: usize)
        ensures
            *final(self) == (PointerSubject {
                value: ptr,
                previous: old(self).value,
                ..*old(self)
            }),
    {
        self.previous = self.value;
        self.value = ptr;
    }

    /// Get the current pointer value.
    pub fn get(&self) -> (r: usize)
        ensures
            r == self.value,
    {
        self.value
    }

    /// Get the pointer value before the last change.
    pub fn previous(&self) -> (r: usize)
        ensures
            r == self.previous,
    {
        self.previous
    }
}

impl Subject for PointerSubject {
    open spec fn observer_count_spec(&self) -> u64 {
        self.observer_count
    }

    open spec fn with_observer_count_spec(&self, n: u64) -> PointerSubject {
        PointerSubject { observer_count: n, ..*self }
    }

    fn attach_observer(&mut self) {
        self.observer_count = self.observer_count + 1;
    }
}

/// Color subject for reactive color values.
#[derive(Clone, Copy, Debug)]
pub struct ColorSubject {
    pub value: Color,
    pub previous: Color,
    pub observer_count: u64,
}

impl ColorSubject {
    /// Create a new color subject.
    pub fn new(initial: Color) -> (s: ColorSubject)
        ensures
            s == (ColorSubject { value: initial, previous: initial, observer_count: 0 }),
    {
        ColorSubject { value: initial, previous: initial, observer_count: 0 }
    }

    /// Set the color value; the old value becomes the previous one.
    pub fn set(&mut self, color: Color)
        ensures
            *final(self) == (ColorSubject {
                value: color,
                previous: old(self).value,
                ..*old(self)
            }),
    {
        self.previous = self.value;
        self.value = color;
    }

    /// Get the current color value.
    pub fn get(&self) -> (r: Color)
        ensures
            r == self.value,
    {
        self.value
    }

    /// Get the color value before the last change.
    pub fn previous(&self) -> (r: Color)
        ensures
            r == self.previous,
    {
        self.previous
    }
}

impl Subject for ColorSubject {
    open spec fn observer_count_spec(&self) -> u64 {
        self.observer_count
    }

    open spec fn with_observer_count_spec(&self, n: u64) -> ColorSubject {
        ColorSubject { observer_count: n, ..*self }
    }

    fn attach_observer(&mut self) {
        self.observer_count = self.observer_count + 1;
    }
}

/// Extension trait for binding widgets to subjects.
pub trait ObserverBindExt: Widget {
    /// Bind this widget's checked state to a subject (zero means
    /// unchecked).  One more observer is bound to the subject; the widget
    /// itself does not change.
    fn bind_checked<S: Subject>(&mut self, subject: &mut S) -> (r: Option<Observer>)
        requires
            old(subject).observer_count_spec() < u64::MAX,
        ensures
            *final(self) == *old(self),
            *final(subject) == old(subject).with_observer_count_spec(
                (old(subject).observer_count_spec() + 1) as u64,
            ),
            r == Some(Observer { active: true }),
    {
        subject.attach_observer();
        Some(Observer { active: true })
    }
}

impl<T: Widget> ObserverBindExt for T {
}

} // verus!
