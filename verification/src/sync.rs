//! Guarded access to widgets.
//!
//! The wrapped renderer is not thread-safe; access to it is serialized
//! through a global lock.  In this model the lock always succeeds and the
//! guard types witness that it is held: [`Locked`] pairs a widget with the
//! lock discipline, and [`LvglLockGuard`] stands for holding the global
//! lock on its own.

use vstd::prelude::*;

verus! {

/// A widget wrapper whose contents are only reachable while the global
/// lock is held.
pub struct Locked<W> {
    pub widget: W,
}

impl<W> Locked<W> {
    /// Wrap a widget for lock-guarded access.
    pub fn new(widget: W) -> (r: Locked<W>)
        ensures
            r.widget == widget,
    {
        Locked { widget }
    }

    /// Take the lock and get guarded access to the widget.
    pub fn lock(&mut self) -> (g: LockedGuard<W>)
        ensures
            *g.widget == old(self).widget,
            final(self).widget == *final(g.widget),
    {
        LockedGuard { widget: &mut self.widget }
    }

    /// Run a closure with read access to the widget, under the lock.
    pub fn with<R, F: FnOnce(&W) -> R>(&self, f: F) -> (r: R)
        requires
            call_requires(f, (&self.widget,)),
        ensures
            call_ensures(f, (&self.widget,), r),
    {
        f(&self.widget)
    }

    /// Run a closure with exclusive access to the widget, under the
    /// lock.  The closure receives the widget and hands back its new
    /// state together with a result; the wrapper comes back with that
    /// new state.
    pub fn with_mut<R, F: FnOnce(W) -> (W, R)>(self, f: F) -> (r: (Locked<W>, R))
        requires
            call_requires(f, (self.widget,)),
        ensures
            call_ensures(f, (self.widget,), (r.0.widget, r.1)),
    {
        let (widget, result) = f(self.widget);
        (Locked { widget }, result)
    }
}

/// Guarded exclusive access to a wrapped widget, releasing the lock when
/// dropped.
pub struct LockedGuard<'a, W> {
    pub widget: &'a mut W,
}

impl<'a, W> LockedGuard<'a, W> {
    /// Read the guarded widget.
    pub fn get(&self) -> (r: &W)
        ensures
            *r == *old(self.widget),
    {
        &*self.widget
    }

    /// Mutate the guarded widget.
    pub fn get_mut(&mut self) -> (r: &mut W)
        ensures
            *r == *old(self).widget,
            *final(self).widget == *final(r),
    {
        &mut *self.widget
    }
}

/// Witness that the global lock is held; dropping it releases the lock.
pub struct LvglLockGuard {
    _private: (),
}

/// Acquire the global lock.
pub fn lvgl_lock() -> LvglLockGuard {
    LvglLockGuard { _private: () }
}

/// Try to acquire the global lock from an interrupt context.
///
/// In this single-threaded model the lock is always free.
pub fn lvgl_try_lock_isr() -> (r: Option<LvglLockGuard>)
    ensures
        r is Some,
{
    Some(LvglLockGuard { _private: () })
}

} // verus!
