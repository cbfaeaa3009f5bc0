//! Fragments: reusable UI components with a navigation stack.
//!
//! A fragment manager keeps a stack of fragments; pushing shows a new
//! one, popping returns to the previous one.  Fragments are identified
//! here by caller-chosen numbers; their lifecycle callbacks belong to the
//! embedding.

use vstd::prelude::*;

verus! {

/// Fragment manager: lifecycle and navigation for a stack of fragments.
#[derive(Debug)]
pub struct FragmentManager {
    /// The navigation stack of fragment identifiers, bottom first.
    pub stack: Vec<u64>,
    /// How many fragments were attached outside the stack.
    pub attached: u64,
    /// Whether the managed fragments' UI objects currently exist.
    pub objs_created: bool,
}

impl FragmentManager {
    /// Create a new fragment manager with an empty stack.
    pub fn new() -> (r: Option<FragmentManager>)
        ensures
            r matches Some(m) && m.stack@ == Seq::<u64>::empty() && m.attached == 0
                && !m.objs_created,
    {
        Some(FragmentManager { stack: Vec::new(), attached: 0, objs_created: false })
    }

    /// Attach a fragment without putting it on the navigation stack.
    pub fn add(&mut self, _fragment: u64)
        requires
            old(self).attached < u64::MAX,
        ensures
            final(self).stack@ == old(self).stack@,
            final(self).attached == old(self).attached + 1,
            final(self).objs_created == old(self).objs_created,
    {
        self.attached = self.attached + 1;
    }

    /// Push a fragment onto the navigation stack.
    pub fn push(&mut self, fragment: u64)
        ensures
            final(self).stack@ == old(self).stack@.push(fragment),
            final(self).attached == old(self).attached,
            final(self).objs_created == old(self).objs_created,
    {
        self.stack.push(fragment);
    }

    /// Pop the top fragment from the navigation stack.
    ///
    /// Returns whether a fragment was popped: exactly when the stack was
    /// not empty.
    pub fn pop(&mut self) -> (r: bool)
        ensures
            r == (old(self).stack@.len() > 0),
            final(self).stack@ == if old(self).stack@.len() > 0 {
                old(self).stack@.drop_last()
            } else {
                old(self).stack@
            },
            final(self).attached == old(self).attached,
            final(self).objs_created == old(self).objs_created,
    {
        if self.stack.len() > 0 {
            let _ = self.stack.pop();
            true
        } else {
            false
        }
    }

    /// Replace the top fragment with a new one; an empty stack receives
    /// the fragment as its only element.
    pub fn replace(&mut self, fragment: u64)
        ensures
            final(self).stack@ == if old(self).stack@.len() > 0 {
                old(self).stack@.update(old(self).stack@.len() - 1, fragment)
            } else {
                old(self).stack@.push(fragment)
            },
            final(self).attached == old(self).attached,
            final(self).objs_created == old(self).objs_created,
    {
        let n = self.stack.len();
        if n > 0 {
            self.stack.set(n - 1, fragment);
        } else {
            self.stack.push(fragment);
        }
    }

    /// The number of fragments on the navigation stack.
    pub fn stack_size(&self) -> (r: usize)
        ensures
            r == self.stack@.len(),
    {
        self.stack.len()
    }

    /// Create the UI objects of all managed fragments.
    pub fn create_obj(&mut self)
        ensures
            final(self).stack@ == old(self).stack@,
            final(self).attached == old(self).attached,
            final(self).objs_created,
    {
        self.objs_created = true;
    }

    /// Delete the UI objects of all managed fragments, keeping the
    /// fragments themselves.
    pub fn delete_obj(&mut self)
        ensures
            final(self).stack@ == old(self).stack@,
            final(self).attached == old(self).attached,
            !final(self).objs_created,
    {
        self.objs_created = false;
    }

    /// Pushing and then popping leaves the navigation stack as it was.
    pub proof fn lemma_push_pop(stack: Seq<u64>, fragment: u64)
        ensures
            stack.push(fragment).drop_last() == stack,
    {
        assert(stack.push(fragment).drop_last() =~= stack);
    }
}

} // verus!
