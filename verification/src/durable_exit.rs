//! Durable-exit state machine: decides whether a quit request must wait for
//! the Workshop to save, and lets a pending exit be cancelled.

use vstd::prelude::*;

verus! {

/// Whether a quit is waiting for the Workshop's durable save.
#[derive(Clone, Copy, Debug, PartialEq, Eq, Structural)]
pub struct DurableExitState {
    pending: bool,
}

/// What the shell does next about a quit.
#[derive(Clone, Copy, Debug, PartialEq, Eq, Structural)]
pub enum DurableExitAction {
    ExitNow,
    PrepareWorkshop,
    Wait,
}

impl View for DurableExitState {
    type V = bool;

    closed spec fn view(&self) -> bool {
        self.pending
    }
}

impl Default for DurableExitState {
    fn default() -> (state: Self)
        ensures
            !state@,
    {
        DurableExitState { pending: false }
    }
}

impl DurableExitState {
    pub fn is_pending(self) -> (pending: bool)
        ensures
            pending == self@,
    {
        self.pending
    }

    /// A quit with nothing to save exits at once; the first quit that must
    /// save asks the Workshop to prepare, and later ones wait for it.
    pub fn request(&mut self, workshop_requires_save: bool) -> (action: DurableExitAction)
        ensures
            !workshop_requires_save ==> action == DurableExitAction::ExitNow && final(self)@
                == old(self)@,
            workshop_requires_save && old(self)@ ==> action == DurableExitAction::Wait
                && final(self)@,
            workshop_requires_save && !old(self)@ ==> action == DurableExitAction::PrepareWorkshop
                && final(self)@,
    {
        if !workshop_requires_save {
            return DurableExitAction::ExitNow;
        }
        if self.pending {
            return DurableExitAction::Wait;
        }
        self.pending = true;
        DurableExitAction::PrepareWorkshop
    }

    /// A pending exit completes once the Workshop is saved for Continue.
    pub fn observe_workshop(&mut self, continue_ready: bool) -> (action: DurableExitAction)
        ensures
            !old(self)@ ==> action == DurableExitAction::Wait && !final(self)@,
            old(self)@ && continue_ready ==> action == DurableExitAction::ExitNow && !final(self)@,
            old(self)@ && !continue_ready ==> action == DurableExitAction::Wait && final(self)@,
    {
        if !self.pending {
            return DurableExitAction::Wait;
        }
        if continue_ready {
            self.pending = false;
            DurableExitAction::ExitNow
        } else {
            DurableExitAction::Wait
        }
    }

    /// Drops a pending exit and reports whether there was one.
    pub fn cancel(&mut self) -> (was_pending: bool)
        ensures
            was_pending == old(self)@,
            !final(self)@,
    {
        let was_pending = self.pending;
        self.pending = false;
        was_pending
    }
}

} // verus!
