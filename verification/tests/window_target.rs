use event_runner::event::{
    ControlFlow, DeviceEvent, DeviceId, ElementState, Event, KeyboardInput, ModifiersState,
    MouseButton, MouseScrollDelta, PhysicalPosition, PhysicalSize, ScaleFactor, TouchPhase,
    WindowEvent, WindowId,
};
use event_runner::registration::RegistrationTable;
use event_runner::runner::UsageError;
use event_runner::window_target::{translate, Notification, Reaction, WindowTarget};

const SHIFT: ModifiersState = ModifiersState { bits: 1 };

fn size(width: u32, height: u32) -> PhysicalSize {
    PhysicalSize { width, height }
}

fn window_event(window: WindowId, event: WindowEvent) -> Event<u32> {
    Event::WindowEvent { window_id: window, event }
}

fn registered_target() -> (WindowTarget<u32>, WindowId) {
    let mut target: WindowTarget<u32> = WindowTarget::new();
    let window = target.generate_id();
    target.register(window, size(800, 600));
    (target, window)
}

#[test]
fn new_target_has_no_listener_and_no_windows() {
    let target: WindowTarget<u32> = WindowTarget::new();
    assert!(!target.runner.has_listener());
    assert_eq!(target.runner.control_flow(), ControlFlow::Poll);
    assert_eq!(target.windows.get(WindowId(1)), None);
}

#[test]
fn window_ids_are_fresh_and_increasing() {
    let mut target: WindowTarget<u32> = WindowTarget::new();
    let a = target.generate_id();
    let b = target.generate_id();
    assert_eq!(a, WindowId(1));
    assert_eq!(b, WindowId(2));
    assert_ne!(a, b);
}

#[test]
fn run_installs_the_listener_once() {
    let (mut target, window) = registered_target();
    assert_eq!(target.notify(window, Notification::Focus).dispatch, None);
    assert_eq!(target.run(), Ok(Some(window_event(window, WindowEvent::Focused(true)))));
    assert_eq!(target.runner.end_turn(ControlFlow::Poll), None);
    assert_eq!(target.run(), Err(UsageError::ListenerAlreadyInstalled));
}

#[test]
fn proxy_sends_into_the_targets_runner() {
    let (mut target, _) = registered_target();
    target.run().unwrap();
    let proxy = target.proxy();
    assert_eq!(proxy.send_event(&mut target.runner, 42), Some(Event::UserEvent(42)));
    assert_eq!(proxy.send_event(&mut target.runner, 43), None);
    assert_eq!(target.runner.end_turn(ControlFlow::Poll), Some(Event::UserEvent(43)));
}

#[test]
fn registration_table_remembers_and_replaces() {
    let mut table = RegistrationTable::new();
    assert_eq!(table.get(WindowId(1)), None);
    table.insert(WindowId(1), size(10, 20));
    table.insert(WindowId(2), size(30, 40));
    assert_eq!(table.get(WindowId(1)), Some(size(10, 20)));
    assert_eq!(table.get(WindowId(2)), Some(size(30, 40)));
    table.insert(WindowId(1), size(50, 60));
    assert_eq!(table.get(WindowId(1)), Some(size(50, 60)));
    assert_eq!(table.get(WindowId(2)), Some(size(30, 40)));
    assert_eq!(table.get(WindowId(3)), None);
}

#[test]
fn key_press_is_followed_by_modifiers_changed() {
    let (mut target, window) = registered_target();
    target.run().unwrap();
    let press = Notification::KeyboardPress { scancode: 30, virtual_keycode: Some(10), modifiers: SHIFT };
    let keyboard = window_event(
        window,
        WindowEvent::KeyboardInput {
            device_id: DeviceId::dummy(),
            input: KeyboardInput {
                scancode: 30,
                state: ElementState::Pressed,
                virtual_keycode: Some(10),
                modifiers: SHIFT,
            },
            is_synthetic: false,
        },
    );
    let modifiers: Event<u32> = Event::DeviceEvent {
        device_id: DeviceId::dummy(),
        event: DeviceEvent::ModifiersChanged(SHIFT),
    };
    let mut seen = Vec::new();
    let mut next = target.notify(window, press).dispatch;
    while let Some(event) = next {
        seen.push(event);
        next = target.runner.end_turn(ControlFlow::Poll);
    }
    assert_eq!(seen, vec![keyboard, modifiers]);
}

#[test]
fn key_release_is_followed_by_modifiers_changed() {
    let events: Vec<Event<u32>> = translate(
        WindowId(3),
        Notification::KeyboardRelease { scancode: 1, virtual_keycode: None, modifiers: SHIFT },
        size(1, 1),
    );
    assert_eq!(
        events,
        vec![
            window_event(
                WindowId(3),
                WindowEvent::KeyboardInput {
                    device_id: DeviceId::Unspecified,
                    input: KeyboardInput {
                        scancode: 1,
                        state: ElementState::Released,
                        virtual_keycode: None,
                        modifiers: SHIFT,
                    },
                    is_synthetic: false,
                },
            ),
            Event::DeviceEvent {
                device_id: DeviceId::Unspecified,
                event: DeviceEvent::ModifiersChanged(SHIFT),
            },
        ]
    );
}

#[test]
fn fullscreen_exit_restores_the_size_at_entry() {
    let (mut target, window) = registered_target();
    target.run().unwrap();
    let enter = target.notify(
        window,
        Notification::FullscreenChange {
            is_fullscreen: true,
            current_size: size(800, 600),
            display_size: size(1920, 1080),
        },
    );
    assert_eq!(
        enter,
        Reaction {
            dispatch: Some(window_event(window, WindowEvent::Resized(size(1920, 1080)))),
            resize_to: Some(size(1920, 1080)),
            start_timer: true,
        }
    );
    assert_eq!(target.windows.get(window), Some(size(800, 600)));
    assert_eq!(target.runner.end_turn(ControlFlow::Wait), None);
    let exit = target.notify(
        window,
        Notification::FullscreenChange {
            is_fullscreen: false,
            current_size: size(1920, 1080),
            display_size: size(1920, 1080),
        },
    );
    assert_eq!(
        exit,
        Reaction {
            dispatch: Some(window_event(window, WindowEvent::Resized(size(800, 600)))),
            resize_to: Some(size(800, 600)),
            start_timer: false,
        }
    );
    assert_eq!(target.windows.get(window), Some(size(800, 600)));
    assert_eq!(target.runner.end_turn(ControlFlow::Wait), None);
    assert_eq!(target.runner.redraw(), Some(Event::RedrawRequested(window)));
    assert_eq!(target.runner.end_turn(ControlFlow::Wait), None);
}

#[test]
fn fullscreen_entry_captures_the_latest_size() {
    let (mut target, window) = registered_target();
    let enter = Notification::FullscreenChange {
        is_fullscreen: true,
        current_size: size(640, 480),
        display_size: size(1920, 1080),
    };
    let reaction = target.notify(window, enter);
    assert_eq!(reaction.dispatch, None);
    assert_eq!(reaction.resize_to, Some(size(1920, 1080)));
    assert_eq!(target.windows.get(window), Some(size(640, 480)));
    let exit = Notification::FullscreenChange {
        is_fullscreen: false,
        current_size: size(1, 1),
        display_size: size(2, 2),
    };
    assert_eq!(target.notify(window, exit).resize_to, Some(size(640, 480)));
    assert_eq!(target.runner.queued_len(), 2);
}

#[test]
fn resize_gives_one_scale_factor_changed() {
    let factor = ScaleFactor { bits: 2.0f64.to_bits() };
    let events: Vec<Event<u32>> = translate(
        WindowId(1),
        Notification::Resize { scale_factor: factor, new_inner_size: size(1600, 1200) },
        size(800, 600),
    );
    assert_eq!(
        events,
        vec![window_event(
            WindowId(1),
            WindowEvent::ScaleFactorChanged { scale_factor: factor, new_inner_size: size(1600, 1200) },
        )]
    );
    let (mut target, window) = registered_target();
    let reaction = target.notify(
        window,
        Notification::Resize { scale_factor: factor, new_inner_size: size(1600, 1200) },
    );
    assert_eq!(reaction, Reaction { dispatch: None, resize_to: None, start_timer: false });
    assert_eq!(target.runner.queued_len(), 1);
    assert!(!target.runner.is_redraw_armed());
}

#[test]
fn unload_routes_to_handle_unload() {
    let (mut target, window) = registered_target();
    target.run().unwrap();
    let reaction = target.notify(window, Notification::BeforeUnload);
    assert_eq!(
        reaction,
        Reaction { dispatch: Some(Event::LoopDestroyed), resize_to: None, start_timer: false }
    );
    assert!(target.runner.is_closed());
    assert_eq!(target.runner.end_turn(ControlFlow::Poll), None);
    assert_eq!(target.notify(window, Notification::Focus).dispatch, None);
    assert_eq!(target.runner.queued_len(), 0);
    let events: Vec<Event<u32>> = translate(window, Notification::BeforeUnload, size(1, 1));
    assert!(events.is_empty());
}

#[test]
fn notification_for_unknown_window_is_ignored() {
    let (mut target, _) = registered_target();
    target.run().unwrap();
    let reaction = target.notify(WindowId(99), Notification::Focus);
    assert_eq!(reaction, Reaction { dispatch: None, resize_to: None, start_timer: false });
    assert!(!target.runner.in_callback());
    assert_eq!(target.runner.queued_len(), 0);
    let reaction = target.notify(WindowId(99), Notification::BeforeUnload);
    assert_eq!(reaction.dispatch, None);
    assert!(!target.runner.is_closed());
}

#[test]
fn sentinel_device_differs_from_every_pointer() {
    assert_eq!(DeviceId::dummy(), DeviceId::dummy());
    assert_ne!(DeviceId::dummy(), DeviceId::pointer(0));
    assert_ne!(DeviceId::dummy(), DeviceId::pointer(-1));
    assert_eq!(DeviceId::pointer(5), DeviceId::Pointer(5));
}

#[test]
fn pointer_and_focus_notifications_translate_one_to_one() {
    let w = WindowId(4);
    let intended = size(1, 1);
    let at = PhysicalPosition { x: 3, y: -4 };
    let cases: Vec<(Notification, WindowEvent)> = vec![
        (Notification::Blur, WindowEvent::Focused(false)),
        (Notification::Focus, WindowEvent::Focused(true)),
        (Notification::ReceivedCharacter('x'), WindowEvent::ReceivedCharacter('x')),
        (
            Notification::CursorLeave { pointer_id: 2 },
            WindowEvent::CursorLeft { device_id: DeviceId::Pointer(2) },
        ),
        (
            Notification::CursorEnter { pointer_id: 2 },
            WindowEvent::CursorEntered { device_id: DeviceId::Pointer(2) },
        ),
        (
            Notification::CursorMove { pointer_id: 2, position: at, modifiers: SHIFT },
            WindowEvent::CursorMoved { device_id: DeviceId::Pointer(2), position: at, modifiers: SHIFT },
        ),
        (
            Notification::MousePress { pointer_id: 0, button: MouseButton::Left, modifiers: SHIFT },
            WindowEvent::MouseInput {
                device_id: DeviceId::Pointer(0),
                state: ElementState::Pressed,
                button: MouseButton::Left,
                modifiers: SHIFT,
            },
        ),
        (
            Notification::MouseRelease { pointer_id: 0, button: MouseButton::Other(4), modifiers: SHIFT },
            WindowEvent::MouseInput {
                device_id: DeviceId::Pointer(0),
                state: ElementState::Released,
                button: MouseButton::Other(4),
                modifiers: SHIFT,
            },
        ),
        (
            Notification::MouseWheel {
                pointer_id: 1,
                delta: MouseScrollDelta::LineDelta(0, -3),
                modifiers: SHIFT,
            },
            WindowEvent::MouseWheel {
                device_id: DeviceId::Pointer(1),
                delta: MouseScrollDelta::LineDelta(0, -3),
                phase: TouchPhase::Moved,
                modifiers: SHIFT,
            },
        ),
    ];
    for (notification, expected) in cases {
        let events: Vec<Event<u32>> = translate(w, notification, intended);
        assert_eq!(events, vec![window_event(w, expected)]);
    }
}

#[test]
fn registering_again_replaces_the_remembered_size() {
    let (mut target, window) = registered_target();
    target.register(window, size(320, 200));
    let exit = Notification::FullscreenChange {
        is_fullscreen: false,
        current_size: size(5, 5),
        display_size: size(6, 6),
    };
    assert_eq!(target.notify(window, exit).resize_to, Some(size(320, 200)));
}

#[test]
fn notifications_during_a_turn_are_drained_in_firing_order() {
    let (mut target, window) = registered_target();
    target.run().unwrap();
    assert_eq!(target.runner.send_event(Event::UserEvent(0)), Some(Event::UserEvent(0)));
    let press = Notification::KeyboardPress { scancode: 30, virtual_keycode: None, modifiers: SHIFT };
    assert_eq!(target.notify(window, Notification::Focus).dispatch, None);
    assert_eq!(target.notify(window, press).dispatch, None);
    assert_eq!(target.notify(window, Notification::Blur).dispatch, None);
    assert!(target.runner.in_callback());
    assert_eq!(target.runner.queued_len(), 4);
    let mut seen = Vec::new();
    let mut next = target.runner.end_turn(ControlFlow::Wait);
    while let Some(event) = next {
        seen.push(event);
        next = target.runner.end_turn(ControlFlow::Wait);
    }
    assert_eq!(
        seen,
        vec![
            window_event(window, WindowEvent::Focused(true)),
            window_event(
                window,
                WindowEvent::KeyboardInput {
                    device_id: DeviceId::Unspecified,
                    input: KeyboardInput {
                        scancode: 30,
                        state: ElementState::Pressed,
                        virtual_keycode: None,
                        modifiers: SHIFT,
                    },
                    is_synthetic: false,
                },
            ),
            Event::DeviceEvent {
                device_id: DeviceId::Unspecified,
                event: DeviceEvent::ModifiersChanged(SHIFT),
            },
            window_event(window, WindowEvent::Focused(false)),
        ]
    );
}

#[test]
fn every_proxy_is_the_same_handle() {
    let (target, _) = registered_target();
    let other: WindowTarget<u32> = WindowTarget::new();
    assert_eq!(format!("{:?}", target.proxy()), format!("{:?}", other.proxy()));
}
