//! The runner: the state machine that owns the control-flow policy, the
//! dispatch queue and the turn state.
//!
//! The listener itself is a callback of the host program and is not held
//! here. An operation that starts a dispatch turn returns the event of that
//! turn; the caller invokes the listener with it and with the current
//! control-flow value, and then reports the value the listener left behind
//! through [`Runner::end_turn`], which either hands out the next event of the
//! same drain or goes back to rest. While a turn is open every event that
//! arrives is queued, so the listener is never entered twice.

use vstd::prelude::*;
use std::collections::VecDeque;
use crate::event::{ControlFlow, Event, WindowId};
use crate::scheduler::RedrawScheduler;

verus! {

/// The mathematical state of a runner.
pub ghost struct RunnerView<T> {
    /// The operative policy; `Exit` means the loop is closed.
    pub control_flow: ControlFlow,
    /// Whether the listener has been installed.
    pub has_listener: bool,
    /// The events accepted and not yet dispatched, oldest first.
    pub queue: Seq<Event<T>>,
    /// Whether a dispatch turn is open.
    pub in_callback: bool,
    /// The windows that asked for a redraw since the last tick, in the order
    /// of their first request.
    pub redraw_pending: Seq<WindowId>,
    /// Whether a refresh trigger is outstanding.
    pub armed: bool,
    /// Whether a tick has fired whose re-arming is still undecided: the
    /// decision waits until the open turn's drain comes to rest.
    pub rearm_due: bool,
    /// The greatest identifier issued so far, 0 when none was.
    pub last_id: u32,
}

/// The usage errors of the runner.
#[derive(Clone, Copy, Debug, PartialEq, Eq)]
pub enum UsageError {
    /// A listener was installed before; the earlier one stays.
    ListenerAlreadyInstalled,
}

/// The redraw events of one tick: one per pending window, in order.
pub open spec fn redraw_events<T>(pending: Seq<WindowId>) -> Seq<Event<T>> {
    pending.map_values(|w: WindowId| Event::<T>::RedrawRequested(w))
}

impl<T> RunnerView<T> {
    /// The loop is closed: nothing is dispatched or scheduled any more.
    pub open spec fn is_closed(self) -> bool {
        self.control_flow.is_exit()
    }

    pub open spec fn wf(self) -> bool {
        &&& self.in_callback ==> self.has_listener
        &&& (self.has_listener && !self.in_callback) ==> self.queue.len() == 0
        &&& self.redraw_pending.no_duplicates()
        &&& self.redraw_pending.len() > 0 ==> self.armed
        &&& self.rearm_due ==> self.in_callback && !self.is_closed()
        &&& self.is_closed() ==> self.queue.len() == 0 && self.redraw_pending.len() == 0
            && !self.armed
    }

    /// The state of a new runner.
    pub open spec fn initial() -> RunnerView<T> {
        RunnerView {
            control_flow: ControlFlow::Poll,
            has_listener: false,
            queue: Seq::empty(),
            in_callback: false,
            redraw_pending: Seq::empty(),
            armed: false,
            rearm_due: false,
            last_id: 0,
        }
    }

    /// The state after `count` further identifiers were issued.
    pub open spec fn issued(self, count: nat) -> RunnerView<T>
        decreases count,
    {
        if count == 0 {
            self
        } else {
            let before = self.issued((count - 1) as nat);
            RunnerView { last_id: (before.last_id + 1) as u32, ..before }
        }
    }

    /// A dispatch turn is due: the runner is at rest with a listener, open,
    /// and has something queued.
    pub open spec fn turn_due(self) -> bool {
        &&& !self.in_callback
        &&& self.has_listener
        &&& !self.is_closed()
        &&& self.queue.len() > 0
    }

    /// The event of the turn that is due, if one is.
    pub open spec fn next_dispatch(self) -> Option<Event<T>> {
        if self.turn_due() {
            Some(self.queue[0])
        } else {
            None
        }
    }

    /// Opens the turn that is due, taking its event off the queue.
    pub open spec fn begin_turn(self) -> RunnerView<T> {
        if self.turn_due() {
            RunnerView {
                queue: self.queue.subrange(1, self.queue.len() as int),
                in_callback: true,
                ..self
            }
        } else {
            self
        }
    }

    /// Accepts `events` in order at the back of the queue; a closed runner
    /// drops them.
    pub open spec fn enqueue(self, events: Seq<Event<T>>) -> RunnerView<T> {
        if self.is_closed() {
            self
        } else {
            RunnerView { queue: self.queue + events, ..self }
        }
    }

    /// Accepts every event of `events`, one call of `send_event` each.
    pub open spec fn send_all(self, events: Seq<Event<T>>) -> RunnerView<T>
        decreases events.len(),
    {
        if events.len() == 0 {
            self
        } else {
            self.send_all(events.drop_last()).enqueue(seq![events.last()]).begin_turn()
        }
    }

    /// Marks the listener as installed.
    pub open spec fn install(self) -> RunnerView<T> {
        RunnerView { has_listener: true, ..self }
    }

    /// Everything scheduled is dropped and the policy is `Exit`.
    pub open spec fn torn_down(self) -> RunnerView<T> {
        RunnerView {
            control_flow: ControlFlow::Exit,
            queue: Seq::empty(),
            redraw_pending: Seq::empty(),
            armed: false,
            rearm_due: false,
            ..self
        }
    }

    /// The open turn is closed with `control_flow` as the value the listener
    /// left behind. `Exit` tears everything down, and a closed runner stays
    /// closed whatever the listener wrote.
    pub open spec fn rest(self, control_flow: ControlFlow) -> RunnerView<T> {
        if !self.in_callback {
            self
        } else if self.is_closed() || control_flow.is_exit() {
            RunnerView { in_callback: false, ..self.torn_down() }
        } else {
            RunnerView { control_flow, in_callback: false, ..self }
        }
    }

    /// Decides the re-arming that a tick left open, once no turn is open:
    /// the trigger is armed exactly if the operative policy is `Poll` or a
    /// redraw was requested since the tick. While a turn is open, and where
    /// nothing was left open, nothing changes.
    pub open spec fn settle(self) -> RunnerView<T> {
        if self.rearm_due && !self.in_callback {
            RunnerView {
                armed: self.control_flow.is_poll() || self.redraw_pending.len() > 0,
                rearm_due: false,
                ..self
            }
        } else {
            self
        }
    }

    /// Closes the open turn and opens the next one of the same drain if
    /// something is queued; where the drain comes to rest instead, a
    /// re-arming left open by a tick is decided by the policy now in force.
    pub open spec fn end_turn(self, control_flow: ControlFlow) -> RunnerView<T> {
        self.rest(control_flow).begin_turn().settle()
    }

    /// Ends one turn after another, with the values of `flows` in order.
    pub open spec fn end_turns(self, flows: Seq<ControlFlow>) -> RunnerView<T>
        decreases flows.len(),
    {
        if flows.len() == 0 {
            self
        } else {
            self.end_turns(flows.drop_last()).end_turn(flows.last())
        }
    }

    /// The events handed out by `end_turns`, in the order of the calls; a
    /// call that hands out nothing contributes nothing.
    pub open spec fn drained(self, flows: Seq<ControlFlow>) -> Seq<Event<T>>
        decreases flows.len(),
    {
        if flows.len() == 0 {
            Seq::empty()
        } else {
            let before = self.end_turns(flows.drop_last());
            match before.rest(flows.last()).next_dispatch() {
                Some(event) => self.drained(flows.drop_last()).push(event),
                None => self.drained(flows.drop_last()),
            }
        }
    }

    /// `window` is noted for the next tick, once, and the trigger is armed; a
    /// closed runner ignores the request.
    pub open spec fn request_redraw(self, window: WindowId) -> RunnerView<T> {
        if self.is_closed() {
            self
        } else {
            RunnerView {
                redraw_pending: if self.redraw_pending.contains(window) {
                    self.redraw_pending
                } else {
                    self.redraw_pending.push(window)
                },
                armed: true,
                ..self
            }
        }
    }

    /// `request_redraw` for `window`, `times` times over.
    pub open spec fn request_redraw_repeated(self, window: WindowId, times: nat) -> RunnerView<T>
        decreases times,
    {
        if times == 0 {
            self
        } else {
            self.request_redraw_repeated(window, (times - 1) as nat).request_redraw(window)
        }
    }

    /// The trigger fired: it is no longer outstanding, the pending redraws
    /// join the queue as events, and whether to arm it again is left open
    /// until these events are dispatched: see `settle`.
    pub open spec fn tick(self) -> RunnerView<T> {
        if self.is_closed() {
            RunnerView { armed: false, ..self }
        } else {
            RunnerView {
                queue: self.queue + redraw_events::<T>(self.redraw_pending),
                redraw_pending: Seq::empty(),
                armed: false,
                rearm_due: true,
                ..self
            }
        }
    }

    /// The state after the whole of a tick: the events are accepted, a turn
    /// opens if one is due, and the re-arming is decided at once if none is
    /// open.
    pub open spec fn redrawn(self) -> RunnerView<T> {
        self.tick().begin_turn().settle()
    }

    /// The host's clock reads `now`: under `WaitUntil` with a deadline that
    /// has passed the wake-up event is accepted, otherwise nothing happens.
    pub open spec fn woken(self, now: u64) -> RunnerView<T> {
        match self.control_flow {
            ControlFlow::WaitUntil(deadline) if deadline <= now => self.enqueue(
                seq![Event::ResumeTimeReached { deadline }],
            ),
            _ => self,
        }
    }

    /// The terminal notification is owed: the runner is open, at rest, and
    /// has a listener to observe the teardown.
    pub open spec fn unload_observed(self) -> bool {
        !self.is_closed() && self.has_listener && !self.in_callback
    }

    /// The host is going away: an implicit `Exit`, with one last turn for the
    /// listener where it can be had.
    pub open spec fn unload(self) -> RunnerView<T> {
        if self.is_closed() {
            self
        } else {
            RunnerView { in_callback: self.has_listener, ..self.torn_down() }
        }
    }
}

pub struct Runner<T> {
    control_flow: ControlFlow,
    has_listener: bool,
    queued_events: VecDeque<Event<T>>,
    in_callback: bool,
    redraw_pending: Vec<WindowId>,
    scheduler: RedrawScheduler,
    rearm_due: bool,
    last_id: u32,
}

impl<T> View for Runner<T> {
    type V = RunnerView<T>;

    closed spec fn view(&self) -> RunnerView<T> {
        RunnerView {
            control_flow: self.control_flow,
            has_listener: self.has_listener,
            queue: self.queued_events@,
            in_callback: self.in_callback,
            redraw_pending: self.redraw_pending@,
            armed: self.scheduler@,
            rearm_due: self.rearm_due,
            last_id: self.last_id,
        }
    }
}

fn is_exit(control_flow: ControlFlow) -> (exit: bool)
    ensures
        exit == control_flow.is_exit(),
{
    match control_flow {
        ControlFlow::Exit => true,
        _ => false,
    }
}

fn is_poll(control_flow: ControlFlow) -> (poll: bool)
    ensures
        poll == control_flow.is_poll(),
{
    match control_flow {
        ControlFlow::Poll => true,
        _ => false,
    }
}

impl<T> Runner<T> {
    pub open spec fn wf(&self) -> bool {
        self@.wf()
    }

    /// A runner under `Poll`, with no listener, nothing queued and no turn
    /// open.
    pub fn new() -> (runner: Runner<T>)
        ensures
            runner@ == RunnerView::<T>::initial(),
            runner.wf(),
    {
        Runner {
            control_flow: ControlFlow::Poll,
            has_listener: false,
            queued_events: VecDeque::new(),
            in_callback: false,
            redraw_pending: Vec::new(),
            scheduler: RedrawScheduler::new(),
            rearm_due: false,
            last_id: 0,
        }
    }

    pub fn control_flow(&self) -> (control_flow: ControlFlow)
        ensures
            control_flow == self@.control_flow,
    {
        self.control_flow
    }

    pub fn has_listener(&self) -> (installed: bool)
        ensures
            installed == self@.has_listener,
    {
        self.has_listener
    }

    pub fn in_callback(&self) -> (open: bool)
        ensures
            open == self@.in_callback,
    {
        self.in_callback
    }

    pub fn is_closed(&self) -> (closed: bool)
        ensures
            closed == self@.is_closed(),
    {
        is_exit(self.control_flow)
    }

    pub fn is_redraw_armed(&self) -> (armed: bool)
        ensures
            armed == self@.armed,
    {
        self.scheduler.is_armed()
    }

    /// The number of events accepted and not yet dispatched.
    pub fn queued_len(&self) -> (len: usize)
        ensures
            len == self@.queue.len(),
    {
        self.queued_events.len()
    }

    /// The greatest identifier issued so far, 0 when none was.
    pub fn last_id(&self) -> (id: u32)
        ensures
            id == self@.last_id,
    {
        self.last_id
    }

    /// Issues a fresh identifier: one more than the greatest issued so far,
    /// hence greater than every identifier issued before. Nothing else
    /// changes, so it may be called while a turn is open.
    pub fn generate_id(&mut self) -> (id: u32)
        requires
            old(self)@.last_id < u32::MAX,
        ensures
            id == old(self)@.last_id + 1,
            final(self)@ == (RunnerView { last_id: id, ..old(self)@ }),
            final(self)@ == old(self)@.issued(1),
    {
        proof {
            assert(old(self)@.issued(1) == (RunnerView {
                last_id: (old(self)@.issued(0).last_id + 1) as u32,
                ..old(self)@.issued(0)
            }));
        }
        self.last_id = self.last_id + 1;
        self.last_id
    }

    fn try_begin_turn(&mut self) -> (dispatch: Option<Event<T>>)
        ensures
            final(self)@ == old(self)@.begin_turn(),
            dispatch == old(self)@.next_dispatch(),
    {
        if !self.in_callback && self.has_listener && !is_exit(self.control_flow) {
            let next = self.queued_events.pop_front();
            if next.is_some() {
                self.in_callback = true;
            }
            next
        } else {
            None
        }
    }

    /// The single point of entry for events. A closed runner drops the event.
    /// While a turn is open, or before a listener is installed, the event is
    /// queued behind those already waiting. Otherwise a turn opens with it at
    /// once: it is returned, to be handed to the listener.
    pub fn send_event(&mut self, event: Event<T>) -> (dispatch: Option<Event<T>>)
        requires
            old(self).wf(),
        ensures
            final(self).wf(),
            final(self)@ == old(self)@.enqueue(seq![event]).begin_turn(),
            dispatch == old(self)@.enqueue(seq![event]).next_dispatch(),
            dispatch.is_some() ==> dispatch == Some(event) && !old(self)@.in_callback
                && final(self)@.in_callback,
            (old(self)@.in_callback && !old(self)@.is_closed()) ==> dispatch.is_none()
                && final(self)@ == (RunnerView {
                queue: old(self)@.queue.push(event),
                ..old(self)@
            }),
    {
        if is_exit(self.control_flow) {
            return None;
        }
        proof {
            assert(old(self)@.queue + seq![event] =~= old(self)@.queue.push(event));
        }
        self.queued_events.push_back(event);
        self.try_begin_turn()
    }

    /// Sends `events` in order, as so many calls of `send_event`. At most the
    /// first of them opens a turn; it is returned then, and the others wait
    /// in the queue.
    pub fn send_events(&mut self, events: Vec<Event<T>>) -> (dispatch: Option<Event<T>>)
        requires
            old(self).wf(),
        ensures
            final(self).wf(),
            final(self)@ == old(self)@.send_all(events@),
            final(self)@ == old(self)@.enqueue(events@).begin_turn(),
            dispatch == old(self)@.enqueue(events@).next_dispatch(),
            dispatch.is_some() ==> !old(self)@.in_callback && final(self)@.in_callback,
    {
        let mut events = events;
        let mut first: Option<Event<T>> = None;
        let ghost all = events@;
        let ghost mut done: Seq<Event<T>> = Seq::empty();
        proof {
            assert(old(self)@.queue + done =~= old(self)@.queue);
        }
        while events.len() > 0
            invariant
                self.wf(),
                done + events@ == all,
                self@ == old(self)@.send_all(done),
                self@ == old(self)@.enqueue(done).begin_turn(),
                first == old(self)@.enqueue(done).next_dispatch(),
            decreases events.len(),
        {
            let ghost before = self@;
            let event = events.remove(0);
            let dispatch = self.send_event(event);
            proof {
                let more = done.push(event);
                assert(more.drop_last() =~= done);
                assert(more + events@ =~= all);
                assert(old(self)@.queue + more =~= (old(self)@.queue + done) + seq![event]);
                assert(old(self)@.queue + done + seq![event] =~= (old(self)@.queue + done).push(
                    event,
                ));
                if old(self)@.enqueue(done).turn_due() {
                    let waiting = old(self)@.queue + done;
                    assert(waiting.subrange(1, waiting.len() as int).push(event) =~= waiting.push(
                        event,
                    ).subrange(1, waiting.len() as int + 1));
                    assert(before.queue + seq![event] =~= before.queue.push(event));
                }
                done = more;
            }
            if first.is_none() {
                first = dispatch;
            }
        }
        proof {
            assert(done =~= all);
        }
        first
    }

    /// Installs the listener, once. Events queued before are owed to it in
    /// the order they came: the first is returned as the event of the turn
    /// that opens, the others follow through `end_turn`. A second call is
    /// refused and changes nothing.
    pub fn set_listener(&mut self) -> (outcome: Result<Option<Event<T>>, UsageError>)
        requires
            old(self).wf(),
        ensures
            final(self).wf(),
            match outcome {
                Ok(dispatch) => {
                    &&& !old(self)@.has_listener
                    &&& !old(self)@.in_callback
                    &&& final(self)@ == old(self)@.install().begin_turn()
                    &&& dispatch == old(self)@.install().next_dispatch()
                },
                Err(error) => {
                    &&& old(self)@.has_listener
                    &&& error == UsageError::ListenerAlreadyInstalled
                    &&& final(self)@ == old(self)@
                },
            },
    {
        if self.has_listener {
            return Err(UsageError::ListenerAlreadyInstalled);
        }
        self.has_listener = true;
        Ok(self.try_begin_turn())
    }

    /// Closes the open turn. `control_flow` is the value the listener left
    /// behind and becomes the operative policy. With `Exit` the queue and all
    /// scheduling are dropped and nothing is handed out. Otherwise the next
    /// queued event is handed out and the turn stays open for it; with
    /// nothing queued the runner goes to rest. Where a tick fired for this
    /// drain, the refresh trigger is decided as the runner comes to rest: it
    /// is armed exactly if the listener left `Poll` or a redraw was requested
    /// since the tick. Without an open turn the call does nothing.
    pub fn end_turn(&mut self, control_flow: ControlFlow) -> (dispatch: Option<Event<T>>)
        requires
            old(self).wf(),
        ensures
            final(self).wf(),
            final(self)@ == old(self)@.end_turn(control_flow),
            dispatch == old(self)@.rest(control_flow).next_dispatch(),
            dispatch.is_some() ==> old(self)@.in_callback && final(self)@.in_callback,
            dispatch.is_none() ==> !final(self)@.in_callback,
            control_flow.is_exit() ==> dispatch.is_none(),
            (control_flow.is_exit() && old(self)@.in_callback) ==> final(self)@.is_closed(),
            (old(self)@.rearm_due && dispatch.is_none() && !control_flow.is_exit())
                ==> final(self)@.armed == (control_flow.is_poll()
                || final(self)@.redraw_pending.len() > 0),
            ((dispatch.is_some() || !old(self)@.rearm_due) && !control_flow.is_exit())
                ==> final(self)@.armed == old(self)@.armed,
            !final(self)@.in_callback ==> !final(self)@.rearm_due,
    {
        if !self.in_callback {
            return None;
        }
        self.in_callback = false;
        if is_exit(self.control_flow) || is_exit(control_flow) {
            self.tear_down();
            None
        } else {
            self.control_flow = control_flow;
            let dispatch = self.try_begin_turn();
            self.settle();
            dispatch
        }
    }

    fn tear_down(&mut self)
        ensures
            final(self)@ == old(self)@.torn_down(),
    {
        self.control_flow = ControlFlow::Exit;
        self.queued_events.clear();
        self.redraw_pending.clear();
        self.scheduler.disarm();
        self.rearm_due = false;
    }

    fn settle(&mut self)
        ensures
            final(self)@ == old(self)@.settle(),
    {
        if self.rearm_due && !self.in_callback {
            if is_poll(self.control_flow) || self.redraw_pending.len() > 0 {
                self.scheduler.arm();
            } else {
                self.scheduler.disarm();
            }
            self.rearm_due = false;
        }
    }

    fn redraw_is_pending(&self, window: WindowId) -> (pending: bool)
        ensures
            pending == self@.redraw_pending.contains(window),
    {
        let mut i: usize = 0;
        while i < self.redraw_pending.len()
            invariant
                i <= self.redraw_pending.len(),
                forall|j: int| 0 <= j < i ==> self.redraw_pending@[j] != window,
            decreases self.redraw_pending.len() - i,
        {
            if self.redraw_pending[i].0 == window.0 {
                return true;
            }
            i = i + 1;
        }
        false
    }

    /// Asks for one `RedrawRequested` event for `window` at the next tick.
    /// Further requests for the same window before that tick add nothing.
    /// Returns `true` when this call armed the trigger, that is when the
    /// host's refresh timer has to be started. A closed runner ignores the
    /// request.
    pub fn request_redraw(&mut self, window: WindowId) -> (newly_armed: bool)
        requires
            old(self).wf(),
        ensures
            final(self).wf(),
            final(self)@ == old(self)@.request_redraw(window),
            newly_armed == (!old(self)@.is_closed() && !old(self)@.armed),
    {
        if is_exit(self.control_flow) {
            return false;
        }
        if !self.redraw_is_pending(window) {
            self.redraw_pending.push(window);
        }
        self.scheduler.arm()
    }

    /// The refresh trigger fired. One `RedrawRequested` event per pending
    /// window is accepted, in the order of the first requests, and the
    /// pending set is emptied. If a turn opens, its event is returned.
    ///
    /// The trigger is armed for the next tick by the policy in force once
    /// these events are dispatched. While a turn is open, for one of them or
    /// from before, the trigger stays unarmed and the decision open; it falls
    /// in `end_turn` when the drain comes to rest. With no turn open it falls
    /// at once: armed exactly under `Poll`.
    pub fn redraw(&mut self) -> (dispatch: Option<Event<T>>)
        requires
            old(self).wf(),
        ensures
            final(self).wf(),
            final(self)@ == old(self)@.redrawn(),
            dispatch == old(self)@.tick().next_dispatch(),
            dispatch.is_some() ==> !old(self)@.in_callback && final(self)@.in_callback,
            final(self)@.in_callback ==> !final(self)@.armed
                && final(self)@.rearm_due == !final(self)@.is_closed(),
            !final(self)@.in_callback ==> !final(self)@.rearm_due
                && final(self)@.armed == (!final(self)@.is_closed()
                && final(self)@.control_flow.is_poll()),
    {
        self.scheduler.fire();
        if is_exit(self.control_flow) {
            return None;
        }
        let mut i: usize = 0;
        while i < self.redraw_pending.len()
            invariant
                i <= self.redraw_pending.len(),
                self.redraw_pending@ == old(self)@.redraw_pending,
                self.queued_events@ == old(self)@.queue + redraw_events::<T>(
                    self.redraw_pending@.take(i as int),
                ),
                self.control_flow == old(self)@.control_flow,
                self.has_listener == old(self)@.has_listener,
                self.in_callback == old(self)@.in_callback,
                self.last_id == old(self)@.last_id,
                self.rearm_due == old(self)@.rearm_due,
                !self.scheduler@,
            decreases self.redraw_pending.len() - i,
        {
            let window = self.redraw_pending[i];
            proof {
                let pending = self.redraw_pending@;
                assert(pending.take(i + 1) =~= pending.take(i as int).push(window));
                assert(redraw_events::<T>(pending.take(i + 1)) =~= redraw_events::<T>(
                    pending.take(i as int),
                ).push(Event::RedrawRequested(window)));
                assert(old(self)@.queue + redraw_events::<T>(pending.take(i + 1)) =~= (old(self)@.queue
                    + redraw_events::<T>(pending.take(i as int))).push(
                    Event::RedrawRequested(window),
                ));
            }
            self.queued_events.push_back(Event::RedrawRequested(window));
            i = i + 1;
        }
        proof {
            assert(self.redraw_pending@.take(i as int) =~= self.redraw_pending@);
        }
        self.redraw_pending.clear();
        self.rearm_due = true;
        let dispatch = self.try_begin_turn();
        self.settle();
        dispatch
    }

    /// The host's clock reads `now`. Under `WaitUntil(deadline)` with
    /// `deadline <= now` the synthetic wake-up event is sent like any other
    /// event; under every other policy, and before the deadline, nothing
    /// happens.
    pub fn wake(&mut self, now: u64) -> (dispatch: Option<Event<T>>)
        requires
            old(self).wf(),
        ensures
            final(self).wf(),
            final(self)@ == old(self)@.woken(now).begin_turn(),
            dispatch == old(self)@.woken(now).next_dispatch(),
            dispatch.is_some() ==> !old(self)@.in_callback && final(self)@.in_callback,
    {
        match self.control_flow {
            ControlFlow::WaitUntil(deadline) => {
                if deadline <= now {
                    self.send_event(Event::ResumeTimeReached { deadline })
                } else {
                    None
                }
            },
            _ => None,
        }
    }

    /// The host is going away. The runner closes as under `Exit`: the queue
    /// and all scheduling are dropped. Where a listener is installed and no
    /// turn is open, one last turn opens with `LoopDestroyed`, so that the
    /// listener can observe the teardown. Later events are dropped.
    pub fn handle_unload(&mut self) -> (dispatch: Option<Event<T>>)
        requires
            old(self).wf(),
        ensures
            final(self).wf(),
            final(self)@ == old(self)@.unload(),
            final(self)@.is_closed(),
            dispatch == if old(self)@.unload_observed() {
                Some(Event::<T>::LoopDestroyed)
            } else {
                None
            },
            dispatch.is_some() ==> !old(self)@.in_callback && final(self)@.in_callback,
    {
        if is_exit(self.control_flow) {
            return None;
        }
        self.tear_down();
        if self.has_listener && !self.in_callback {
            self.in_callback = true;
            Some(Event::LoopDestroyed)
        } else {
            None
        }
    }
}

} // verus!
