//! The echo guard: one slot that marks the next observed clipboard change
//! as the echo of a write this process made itself.

use vstd::prelude::*;

verus! {

/// A single-slot flag with test-and-clear semantics.
///
/// The path that applies a remote update arms the guard before it writes
/// to the clipboard; the detection path tests and clears it on every
/// change it observes and swallows the change that finds it armed. Both
/// operations take the guard exclusively, so neither can see the other
/// half done.
#[derive(Debug)]
pub struct EchoGuard {
    armed: bool,
}

impl View for EchoGuard {
    type V = bool;

    /// Whether the next observed change will be swallowed.
    closed spec fn view(&self) -> bool {
        self.armed
    }
}

/// The slot after `arm`, whatever it held.
pub open spec fn after_arm(slot: bool) -> bool {
    true
}

/// What `test_and_clear` reports of a slot, and the slot after it.
pub open spec fn after_test(slot: bool) -> (bool, bool) {
    (slot, false)
}

impl EchoGuard {
    /// A guard that is not armed.
    pub fn new() -> (guard: Self)
        ensures
            !guard@,
    {
        EchoGuard { armed: false }
    }

    /// Whether the guard is armed, without touching it.
    pub fn is_armed(&self) -> (armed: bool)
        ensures
            armed == self@,
    {
        self.armed
    }

    /// Arms the guard. Arming an armed guard leaves it armed: the slot
    /// holds one mark, not a count.
    pub fn arm(&mut self)
        ensures
            final(self)@ == after_arm(old(self)@),
    {
        self.armed = true;
    }

    /// Reports whether the guard was armed, and disarms it.
    pub fn test_and_clear(&mut self) -> (was_armed: bool)
        ensures
            (was_armed, final(self)@) == after_test(old(self)@),
    {
        let was_armed = self.armed;
        self.armed = false;
        was_armed
    }
}

impl Default for EchoGuard {
    fn default() -> (guard: Self)
        ensures
            !guard@,
    {
        EchoGuard::new()
    }
}

/// One arming swallows exactly one change: after `arm`, the first
/// `test_and_clear` reports true and the one after it reports false,
/// whatever the slot held before.
pub proof fn lemma_armed_once(slot: bool)
    ensures
        after_test(after_arm(slot)).0,
        !after_test(after_test(after_arm(slot)).1).0,
{
}

/// A guard that was not armed swallows nothing, and testing it leaves it
/// unarmed.
pub proof fn lemma_unarmed_passes()
    ensures
        after_test(false) == (false, false),
{
}

} // verus!
