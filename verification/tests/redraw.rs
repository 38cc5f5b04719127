use event_runner::event::{ControlFlow, Event, WindowId};
use event_runner::runner::Runner;
use event_runner::scheduler::RedrawScheduler;

#[test]
fn scheduler_arms_once_and_fires_once() {
    let mut scheduler = RedrawScheduler::new();
    assert!(!scheduler.is_armed());
    assert!(!scheduler.fire());
    assert!(scheduler.arm());
    assert!(scheduler.is_armed());
    assert!(!scheduler.arm());
    assert!(scheduler.fire());
    assert!(!scheduler.is_armed());
    assert!(!scheduler.fire());
    assert!(scheduler.arm());
    scheduler.disarm();
    assert!(!scheduler.is_armed());
}

#[test]
fn repeated_redraw_requests_give_one_event() {
    let mut runner: Runner<u32> = Runner::new();
    runner.set_listener().unwrap();
    assert!(runner.request_redraw(WindowId(7)));
    for _ in 0..5 {
        assert!(!runner.request_redraw(WindowId(7)));
    }
    assert!(runner.is_redraw_armed());
    let first = runner.redraw();
    assert_eq!(first, Some(Event::RedrawRequested(WindowId(7))));
    assert_eq!(runner.queued_len(), 0);
    assert_eq!(runner.end_turn(ControlFlow::Wait), None);
    assert_eq!(runner.redraw(), None);
}

#[test]
fn one_redraw_event_per_window_in_request_order() {
    let mut runner: Runner<u32> = Runner::new();
    runner.set_listener().unwrap();
    runner.request_redraw(WindowId(2));
    runner.request_redraw(WindowId(1));
    runner.request_redraw(WindowId(2));
    runner.request_redraw(WindowId(3));
    runner.request_redraw(WindowId(1));
    assert_eq!(runner.redraw(), Some(Event::RedrawRequested(WindowId(2))));
    assert_eq!(runner.end_turn(ControlFlow::Poll), Some(Event::RedrawRequested(WindowId(1))));
    assert_eq!(runner.end_turn(ControlFlow::Poll), Some(Event::RedrawRequested(WindowId(3))));
    assert_eq!(runner.end_turn(ControlFlow::Poll), None);
}

#[test]
fn redraw_rearms_under_poll() {
    let mut runner: Runner<u32> = Runner::new();
    runner.set_listener().unwrap();
    runner.request_redraw(WindowId(1));
    assert_eq!(runner.control_flow(), ControlFlow::Poll);
    assert!(runner.redraw().is_some());
    // The decision waits for the turn of the redraw event.
    assert!(!runner.is_redraw_armed());
    assert_eq!(runner.end_turn(ControlFlow::Poll), None);
    assert!(runner.is_redraw_armed());
}

#[test]
fn redraw_stays_dormant_under_wait() {
    let mut runner: Runner<u32> = Runner::new();
    runner.set_listener().unwrap();
    assert!(runner.send_event(Event::UserEvent(1)).is_some());
    assert_eq!(runner.end_turn(ControlFlow::Wait), None);
    assert!(runner.request_redraw(WindowId(1)));
    assert!(runner.redraw().is_some());
    assert!(!runner.is_redraw_armed());
    assert_eq!(runner.end_turn(ControlFlow::Wait), None);
    assert!(!runner.is_redraw_armed());
    assert!(runner.request_redraw(WindowId(1)));
}

#[test]
fn listener_leaving_wait_in_the_redraw_turn_stops_the_ticks() {
    let mut runner: Runner<u32> = Runner::new();
    runner.set_listener().unwrap();
    assert_eq!(runner.control_flow(), ControlFlow::Poll);
    assert!(runner.request_redraw(WindowId(1)));
    assert_eq!(runner.redraw(), Some(Event::RedrawRequested(WindowId(1))));
    assert_eq!(runner.end_turn(ControlFlow::Wait), None);
    assert_eq!(runner.control_flow(), ControlFlow::Wait);
    assert!(!runner.is_redraw_armed());
}

#[test]
fn listener_leaving_poll_in_the_redraw_turn_keeps_the_ticks() {
    let mut runner: Runner<u32> = Runner::new();
    runner.set_listener().unwrap();
    assert!(runner.send_event(Event::UserEvent(1)).is_some());
    assert_eq!(runner.end_turn(ControlFlow::Wait), None);
    assert!(runner.request_redraw(WindowId(1)));
    assert_eq!(runner.redraw(), Some(Event::RedrawRequested(WindowId(1))));
    assert_eq!(runner.end_turn(ControlFlow::Poll), None);
    assert_eq!(runner.control_flow(), ControlFlow::Poll);
    assert!(runner.is_redraw_armed());
}

#[test]
fn rearm_goes_by_the_last_turn_of_the_drain() {
    let mut runner: Runner<u32> = Runner::new();
    runner.set_listener().unwrap();
    runner.request_redraw(WindowId(1));
    runner.request_redraw(WindowId(2));
    assert_eq!(runner.redraw(), Some(Event::RedrawRequested(WindowId(1))));
    assert_eq!(runner.end_turn(ControlFlow::Wait), Some(Event::RedrawRequested(WindowId(2))));
    assert!(!runner.is_redraw_armed());
    assert_eq!(runner.end_turn(ControlFlow::WaitUntil(9)), None);
    assert!(!runner.is_redraw_armed());
    runner.request_redraw(WindowId(1));
    assert_eq!(runner.redraw(), Some(Event::RedrawRequested(WindowId(1))));
    assert_eq!(runner.end_turn(ControlFlow::Exit), None);
    assert!(!runner.is_redraw_armed());
}

#[test]
fn redraw_requested_in_the_redraw_turn_keeps_the_trigger_armed() {
    let mut runner: Runner<u32> = Runner::new();
    runner.set_listener().unwrap();
    runner.request_redraw(WindowId(1));
    assert_eq!(runner.redraw(), Some(Event::RedrawRequested(WindowId(1))));
    assert!(runner.request_redraw(WindowId(1)));
    assert_eq!(runner.end_turn(ControlFlow::Wait), None);
    assert!(runner.is_redraw_armed());
    assert_eq!(runner.redraw(), Some(Event::RedrawRequested(WindowId(1))));
    assert_eq!(runner.end_turn(ControlFlow::Wait), None);
    assert!(!runner.is_redraw_armed());
}

#[test]
fn tick_with_no_turn_to_open_decides_at_once() {
    let mut runner: Runner<u32> = Runner::new();
    assert!(runner.request_redraw(WindowId(1)));
    assert_eq!(runner.redraw(), None);
    assert!(runner.is_redraw_armed());
    let mut waiting: Runner<u32> = Runner::new();
    waiting.set_listener().unwrap();
    assert!(waiting.send_event(Event::UserEvent(1)).is_some());
    assert_eq!(waiting.end_turn(ControlFlow::Wait), None);
    assert_eq!(waiting.redraw(), None);
    assert!(!waiting.is_redraw_armed());
}

#[test]
fn drain_without_a_tick_leaves_the_trigger_alone() {
    let mut runner: Runner<u32> = Runner::new();
    runner.set_listener().unwrap();
    assert!(runner.send_event(Event::UserEvent(1)).is_some());
    assert_eq!(runner.end_turn(ControlFlow::Poll), None);
    assert!(!runner.is_redraw_armed());
    assert!(runner.request_redraw(WindowId(1)));
    assert!(runner.send_event(Event::UserEvent(2)).is_some());
    assert_eq!(runner.end_turn(ControlFlow::Wait), None);
    assert!(runner.is_redraw_armed());
}

#[test]
fn redraw_before_listener_queues_the_events() {
    let mut runner: Runner<u32> = Runner::new();
    runner.send_event(Event::UserEvent(9));
    runner.request_redraw(WindowId(4));
    assert_eq!(runner.redraw(), None);
    assert_eq!(runner.queued_len(), 2);
    assert_eq!(runner.set_listener(), Ok(Some(Event::UserEvent(9))));
    assert_eq!(runner.end_turn(ControlFlow::Poll), Some(Event::RedrawRequested(WindowId(4))));
    assert_eq!(runner.end_turn(ControlFlow::Poll), None);
}

#[test]
fn request_after_tick_gives_a_new_event() {
    let mut runner: Runner<u32> = Runner::new();
    runner.set_listener().unwrap();
    runner.request_redraw(WindowId(1));
    assert_eq!(runner.redraw(), Some(Event::RedrawRequested(WindowId(1))));
    assert_eq!(runner.end_turn(ControlFlow::Poll), None);
    assert_eq!(runner.redraw(), None);
    runner.request_redraw(WindowId(1));
    assert_eq!(runner.redraw(), Some(Event::RedrawRequested(WindowId(1))));
}
