//! What holds of the runner over several calls, proved over its mathematical
//! state.

use vstd::prelude::*;
use crate::event::{ControlFlow, Event, WindowId};
use crate::runner::{redraw_events, RunnerView};

verus! {

/// None of `flows` is `Exit`.
pub open spec fn none_exits(flows: Seq<ControlFlow>) -> bool {
    forall|i: int| 0 <= i < flows.len() ==> !(#[trigger] flows[i]).is_exit()
}

/// Events sent one by one while a turn is open, or before a listener is
/// installed, all join the back of the queue in the order of the calls, and
/// nothing else changes: none of the calls opens a turn.
pub proof fn lemma_sends_queue_in_call_order<T>(s: RunnerView<T>, sent: Seq<Event<T>>)
    requires
        s.in_callback || !s.has_listener,
        !s.is_closed(),
    ensures
        s.send_all(sent) == (RunnerView { queue: s.queue + sent, ..s }),
        forall|k: int|
            0 <= k < sent.len() ==> (#[trigger] s.send_all(sent.take(k))).enqueue(
                seq![sent[k]],
            ).next_dispatch().is_none(),
    decreases sent.len(),
{
    if sent.len() == 0 {
        assert(s.queue + sent =~= s.queue);
    } else {
        let front = sent.drop_last();
        lemma_sends_queue_in_call_order(s, front);
        assert((s.queue + front) + seq![sent.last()] =~= s.queue + sent);
        assert forall|k: int| 0 <= k < sent.len() implies (#[trigger] s.send_all(
            sent.take(k),
        )).enqueue(seq![sent[k]]).next_dispatch().is_none() by {
            if k < front.len() {
                assert(front.take(k) =~= sent.take(k));
                assert(front[k] == sent[k]);
            } else {
                assert(sent.take(k) =~= front);
            }
        }
    }
}

/// Ending turn after turn without `Exit` hands out the queued events from the
/// front, one per call, in the order in which they were queued; the turn
/// stays open throughout.
pub proof fn lemma_drain_follows_queue<T>(s: RunnerView<T>, flows: Seq<ControlFlow>)
    requires
        s.in_callback,
        s.has_listener,
        !s.is_closed(),
        none_exits(flows),
        flows.len() <= s.queue.len(),
    ensures
        s.drained(flows) == s.queue.take(flows.len() as int),
        s.end_turns(flows) == (RunnerView {
            queue: s.queue.skip(flows.len() as int),
            control_flow: if flows.len() == 0 {
                s.control_flow
            } else {
                flows.last()
            },
            ..s
        }),
    decreases flows.len(),
{
    if flows.len() == 0 {
        assert(s.queue.take(0) =~= Seq::<Event<T>>::empty());
        assert(s.queue.skip(0) =~= s.queue);
    } else {
        let n = flows.len() as int;
        let front = flows.drop_last();
        assert(none_exits(front)) by {
            assert forall|i: int| 0 <= i < front.len() implies !(#[trigger] front[i]).is_exit() by {
                assert(front[i] == flows[i]);
            }
        }
        lemma_drain_follows_queue(s, front);
        let before = s.end_turns(front);
        let rested = before.rest(flows.last());
        assert(!flows[n - 1].is_exit());
        assert(rested.turn_due());
        assert(rested.queue[0] == s.queue[n - 1]);
        assert(s.queue.take(n - 1).push(s.queue[n - 1]) =~= s.queue.take(n));
        assert(before.queue.subrange(1, before.queue.len() as int) =~= s.queue.skip(n));
    }
}

/// First in, first out: whatever is sent while a turn is open reaches the
/// listener after the events queued before it, in the order of the calls.
pub proof fn lemma_reentrant_dispatch_is_fifo<T>(
    s: RunnerView<T>,
    sent: Seq<Event<T>>,
    flows: Seq<ControlFlow>,
)
    requires
        s.wf(),
        s.in_callback,
        !s.is_closed(),
        none_exits(flows),
        flows.len() == s.queue.len() + sent.len(),
    ensures
        s.send_all(sent).drained(flows) == s.queue + sent,
{
    lemma_sends_queue_in_call_order(s, sent);
    let filled = s.send_all(sent);
    lemma_drain_follows_queue(filled, flows);
    assert(filled.queue.take(flows.len() as int) =~= filled.queue);
}

/// Events sent before a listener exists are owed to it first: installing the
/// listener hands out the oldest, and the drain that follows hands out the
/// others in the order in which they came, ahead of anything sent during the drain.
pub proof fn lemma_early_events_reach_the_listener_first<T>(
    s: RunnerView<T>,
    early: Seq<Event<T>>,
    late: Seq<Event<T>>,
    flows: Seq<ControlFlow>,
)
    requires
        s.wf(),
        !s.has_listener,
        !s.is_closed(),
        s.queue.len() + early.len() > 0,
        none_exits(flows),
        flows.len() == s.queue.len() + early.len() + late.len() - 1,
    ensures
        s.send_all(early).install().next_dispatch() == Some((s.queue + early)[0]),
        seq![(s.queue + early)[0]] + s.send_all(early).install().begin_turn().send_all(
            late,
        ).drained(flows) == s.queue + early + late,
{
    lemma_sends_queue_in_call_order(s, early);
    let opened = s.send_all(early).install().begin_turn();
    lemma_sends_queue_in_call_order(opened, late);
    let filled = opened.send_all(late);
    lemma_drain_follows_queue(filled, flows);
    assert(filled.queue.take(flows.len() as int) =~= filled.queue);
    assert(seq![(s.queue + early)[0]] + filled.queue =~= s.queue + early + late);
}

/// Dispatch turns never overlap: while a turn is open, no entry point but
/// the end of that turn hands out an event.
pub proof fn lemma_turns_never_overlap<T>(s: RunnerView<T>, events: Seq<Event<T>>)
    requires
        s.wf(),
        s.in_callback,
    ensures
        s.enqueue(events).next_dispatch().is_none(),
        s.enqueue(events).begin_turn().in_callback,
        s.tick().next_dispatch().is_none(),
        s.redrawn().in_callback,
        forall|now: u64| (#[trigger] s.woken(now)).next_dispatch().is_none(),
        !s.unload_observed(),
        s.unload().in_callback,
        s.has_listener,
{
}

/// However often a redraw is requested for one window before the tick, the
/// state is that of a single request, and the tick yields exactly one
/// `RedrawRequested` event for that window.
pub proof fn lemma_redraw_requests_coalesce<T>(s: RunnerView<T>, window: WindowId, times: nat)
    requires
        s.wf(),
        !s.is_closed(),
        times >= 1,
    ensures
        s.request_redraw_repeated(window, times) == s.request_redraw(window),
        s.request_redraw_repeated(window, times).wf(),
        ({
            let requested = s.request_redraw_repeated(window, times);
            let events = redraw_events::<T>(requested.redraw_pending);
            &&& requested.tick().queue == s.queue + events
            &&& exists|i: int|
                {
                    &&& 0 <= i < events.len()
                    &&& #[trigger] events[i] == Event::<T>::RedrawRequested(window)
                    &&& forall|j: int|
                        0 <= j < events.len() && #[trigger] events[j]
                            == Event::<T>::RedrawRequested(window) ==> j == i
                }
        }),
    decreases times,
{
    let once = s.request_redraw(window);
    assert(once.redraw_pending.contains(window)) by {
        if !s.redraw_pending.contains(window) {
            assert(once.redraw_pending[s.redraw_pending.len() as int] == window);
        }
    }
    assert(once.redraw_pending.no_duplicates());
    assert(once.request_redraw(window) == once);
    if times > 1 {
        lemma_redraw_requests_coalesce(s, window, (times - 1) as nat);
    } else {
        assert(s.request_redraw_repeated(window, 0) == s);
    }
    let events = redraw_events::<T>(once.redraw_pending);
    let i = choose|i: int| 0 <= i < once.redraw_pending.len() && once.redraw_pending[i] == window;
    assert(events[i] == Event::<T>::RedrawRequested(window));
    assert forall|j: int|
        0 <= j < events.len() && #[trigger] events[j] == Event::<T>::RedrawRequested(
            window,
        ) implies j == i by {
        assert(once.redraw_pending[j] == window);
    }
}

/// After a tick the trigger is armed again by the policy the listener leaves,
/// not by the one in force when the tick came. A runner at rest with
/// redraws pending opens a turn at the tick and leaves the trigger unarmed;
/// the redraw events are handed out one per turn in the order of the
/// requests; and when the last turn ends without `Exit`, the trigger is armed
/// exactly if the value left by that turn is `Poll`, or a redraw was
/// requested meanwhile.
pub proof fn lemma_tick_rearms_by_the_policy_left<T>(s: RunnerView<T>, flows: Seq<ControlFlow>)
    requires
        s.wf(),
        !s.is_closed(),
        !s.in_callback,
        s.has_listener,
        s.redraw_pending.len() > 0,
        none_exits(flows),
        flows.len() == s.redraw_pending.len(),
    ensures
        s.tick().next_dispatch() == Some(Event::<T>::RedrawRequested(s.redraw_pending[0])),
        s.redrawn().in_callback,
        s.redrawn().rearm_due,
        !s.redrawn().armed,
        seq![Event::<T>::RedrawRequested(s.redraw_pending[0])] + s.redrawn().drained(flows)
            == redraw_events::<T>(s.redraw_pending),
        !s.redrawn().end_turns(flows).in_callback,
        !s.redrawn().end_turns(flows).rearm_due,
        s.redrawn().end_turns(flows).control_flow == flows.last(),
        s.redrawn().end_turns(flows).armed == flows.last().is_poll(),
{
    let events = redraw_events::<T>(s.redraw_pending);
    assert(s.queue + events =~= events);
    let opened = s.redrawn();
    assert(opened.queue == events.subrange(1, events.len() as int));
    let front = flows.drop_last();
    assert(none_exits(front)) by {
        assert forall|i: int| 0 <= i < front.len() implies !(#[trigger] front[i]).is_exit() by {
            assert(front[i] == flows[i]);
        }
    }
    lemma_drain_follows_queue(opened, front);
    let before = opened.end_turns(front);
    assert(!flows[flows.len() - 1].is_exit());
    assert(before.queue.len() == 0);
    assert(opened.queue.take(front.len() as int) =~= opened.queue);
    assert(seq![events[0]] + opened.queue =~= events);
}

/// Whatever a drain does, a re-arming left open by a tick is decided when
/// the runner comes to rest: by the value the last turn leaves and by the
/// redraws requested since.
pub proof fn lemma_rest_settles_the_trigger<T>(s: RunnerView<T>, control_flow: ControlFlow)
    requires
        s.wf(),
        s.rearm_due,
        s.queue.len() == 0,
        !control_flow.is_exit(),
    ensures
        !s.end_turn(control_flow).in_callback,
        !s.end_turn(control_flow).rearm_due,
        s.end_turn(control_flow).armed == (control_flow.is_poll() || s.redraw_pending.len() > 0),
        s.end_turn(control_flow).redraw_pending == s.redraw_pending,
{
}

/// `Exit` written by the listener ends all dispatch: whatever was queued
/// before or sent during that turn is dropped when the turn ends, nothing is
/// handed out, and the runner is closed with nothing scheduled.
pub proof fn lemma_exit_drops_the_turn<T>(s: RunnerView<T>, sent: Seq<Event<T>>)
    requires
        s.wf(),
        s.in_callback,
    ensures
        s.send_all(sent).rest(ControlFlow::Exit).next_dispatch().is_none(),
        s.send_all(sent).end_turn(ControlFlow::Exit).is_closed(),
        s.send_all(sent).end_turn(ControlFlow::Exit).queue.len() == 0,
        s.send_all(sent).end_turn(ControlFlow::Exit).redraw_pending.len() == 0,
        !s.send_all(sent).end_turn(ControlFlow::Exit).armed,
        !s.send_all(sent).end_turn(ControlFlow::Exit).in_callback,
{
    if s.is_closed() {
        lemma_closed_runner_ignores_sends(s, sent);
    } else {
        lemma_sends_queue_in_call_order(s, sent);
    }
}

/// A closed runner drops every event sent to it.
pub proof fn lemma_closed_runner_ignores_sends<T>(s: RunnerView<T>, sent: Seq<Event<T>>)
    requires
        s.is_closed(),
    ensures
        s.send_all(sent) == s,
    decreases sent.len(),
{
    if sent.len() > 0 {
        lemma_closed_runner_ignores_sends(s, sent.drop_last());
    }
}

/// Once closed, always closed and silent: no entry point hands out an event
/// or schedules anything, and the runner stays closed.
pub proof fn lemma_closed_runner_is_silent<T>(
    s: RunnerView<T>,
    events: Seq<Event<T>>,
    window: WindowId,
    control_flow: ControlFlow,
)
    requires
        s.wf(),
        s.is_closed(),
    ensures
        s.enqueue(events) == s,
        s.enqueue(events).next_dispatch().is_none(),
        s.request_redraw(window) == s,
        s.tick() == s,
        s.tick().next_dispatch().is_none(),
        forall|now: u64| #[trigger] s.woken(now) == s,
        s.rest(control_flow).next_dispatch().is_none(),
        s.end_turn(control_flow).is_closed(),
        s.install().next_dispatch().is_none(),
        s.unload() == s,
        !s.unload_observed(),
{
}

/// Identifiers only grow: each one issued is greater than every one issued
/// before it, and issuing touches nothing but the counter.
pub proof fn lemma_later_ids_are_greater<T>(s: RunnerView<T>, earlier: nat, later: nat)
    requires
        earlier < later,
        s.last_id + later <= u32::MAX,
    ensures
        s.issued(later).last_id == s.last_id + later,
        s.issued(earlier).last_id < s.issued(later).last_id,
        s.issued(later) == (RunnerView { last_id: s.issued(later).last_id, ..s }),
    decreases later,
{
    if later > 1 {
        if earlier < later - 1 {
            lemma_later_ids_are_greater(s, earlier, (later - 1) as nat);
        } else {
            lemma_later_ids_are_greater(s, 0, (later - 1) as nat);
        }
    } else {
        assert(s.issued(0) == s);
    }
}

/// Every entry point keeps the state well formed.
pub proof fn lemma_steps_keep_well_formed<T>(
    s: RunnerView<T>,
    event: Event<T>,
    window: WindowId,
    control_flow: ControlFlow,
)
    requires
        s.wf(),
    ensures
        RunnerView::<T>::initial().wf(),
        s.enqueue(seq![event]).begin_turn().wf(),
        !s.has_listener ==> s.install().begin_turn().wf(),
        s.end_turn(control_flow).wf(),
        s.request_redraw(window).wf(),
        s.redrawn().wf(),
        forall|now: u64| (#[trigger] s.woken(now)).begin_turn().wf(),
        s.unload().wf(),
        s.last_id < u32::MAX ==> s.issued(1).wf(),
{
    if s.last_id < u32::MAX {
        lemma_later_ids_are_greater(s, 0, 1);
    }
}

} // verus!
