//! The proxy: a handle for injecting application-defined events into the
//! runner's stream.

use vstd::prelude::*;
use crate::event::Event;
use crate::runner::{Runner, RunnerView};

verus! {

/// A cheap, copyable handle. It holds no state of its own: every event it
/// sends goes through the runner's single point of entry and is ordered and
/// deferred like any other.
#[derive(Clone, Copy, Debug)]
pub struct Proxy {}

impl Proxy {
    /// The handle. There is only one value of it: a proxy names no runner,
    /// the sender does on each call of `send_event`.
    pub fn new() -> (proxy: Proxy)
        ensures
            proxy == (Proxy {  }),
    {
        Proxy {  }
    }

    /// Wraps `payload` as a user event and sends it to `runner`. Returns
    /// what `Runner::send_event` returns for that event: the event itself
    /// where a turn opens with it, nothing where it was queued or dropped.
    pub fn send_event<T>(&self, runner: &mut Runner<T>, payload: T) -> (dispatch: Option<Event<T>>)
        requires
            old(runner).wf(),
        ensures
            final(runner).wf(),
            final(runner)@ == old(runner)@.enqueue(seq![Event::UserEvent(payload)]).begin_turn(),
            dispatch == old(runner)@.enqueue(seq![Event::UserEvent(payload)]).next_dispatch(),
            dispatch.is_some() ==> dispatch == Some(Event::UserEvent(payload))
                && !old(runner)@.in_callback,
            (old(runner)@.in_callback && !old(runner)@.is_closed()) ==> dispatch.is_none()
                && final(runner)@ == (RunnerView {
                queue: old(runner)@.queue.push(Event::UserEvent(payload)),
                ..old(runner)@
            }),
    {
        runner.send_event(Event::UserEvent(payload))
    }
}

} // verus!
