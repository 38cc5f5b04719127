//! The redraw scheduler: at most one outstanding "next display refresh"
//! trigger. The host's timer lives outside; this is the record of whether a
//! trigger is outstanding, which decides when the host has to be asked.

use vstd::prelude::*;

verus! {

pub struct RedrawScheduler {
    armed: bool,
}

impl View for RedrawScheduler {
    type V = bool;

    /// Whether a trigger is outstanding.
    closed spec fn view(&self) -> bool {
        self.armed
    }
}

impl RedrawScheduler {
    /// A scheduler with no trigger outstanding.
    pub fn new() -> (s: RedrawScheduler)
        ensures
            !s@,
    {
        RedrawScheduler { armed: false }
    }

    pub fn is_armed(&self) -> (armed: bool)
        ensures
            armed == self@,
    {
        self.armed
    }

    /// Registers the one-shot trigger. Returns `true` when none was
    /// outstanding, that is when the host's timer has to be started now.
    pub fn arm(&mut self) -> (started: bool)
        ensures
            final(self)@,
            started == !old(self)@,
    {
        let started = !self.armed;
        self.armed = true;
        started
    }

    /// The host's timer fired. Returns `true` when a trigger was outstanding,
    /// that is when the registered callback is owed exactly one invocation;
    /// either way no trigger is outstanding afterwards.
    pub fn fire(&mut self) -> (owed: bool)
        ensures
            !final(self)@,
            owed == old(self)@,
    {
        let owed = self.armed;
        self.armed = false;
        owed
    }

    /// Drops the outstanding trigger, if any, without an invocation.
    pub fn disarm(&mut self)
        ensures
            !final(self)@,
    {
        self.armed = false;
    }
}

} // verus!
