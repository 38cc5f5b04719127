//! The window target: the runner together with the table of registered
//! windows, and the one handler that turns a raw notification of the event
//! source into events.

use vstd::prelude::*;
use crate::event::{
    ControlFlow, DeviceEvent, DeviceId, ElementState, Event, KeyboardInput, ModifiersState,
    MouseButton, MouseScrollDelta, PhysicalPosition, PhysicalSize, ScaleFactor, TouchPhase,
    WindowEvent, WindowId,
};
use crate::guarantees::{lemma_drain_follows_queue, none_exits};
use crate::proxy::Proxy;
use crate::registration::RegistrationTable;
use crate::runner::{Runner, RunnerView, UsageError};

verus! {

/// A raw notification, as the event source raises it for one window.
#[derive(Clone, Copy, Debug, PartialEq, Eq)]
pub enum Notification {
    Blur,
    Focus,
    KeyboardPress { scancode: u32, virtual_keycode: Option<u32>, modifiers: ModifiersState },
    KeyboardRelease { scancode: u32, virtual_keycode: Option<u32>, modifiers: ModifiersState },
    ReceivedCharacter(char),
    CursorLeave { pointer_id: i32 },
    CursorEnter { pointer_id: i32 },
    CursorMove { pointer_id: i32, position: PhysicalPosition, modifiers: ModifiersState },
    MousePress { pointer_id: i32, button: MouseButton, modifiers: ModifiersState },
    MouseRelease { pointer_id: i32, button: MouseButton, modifiers: ModifiersState },
    MouseWheel { pointer_id: i32, delta: MouseScrollDelta, modifiers: ModifiersState },
    /// The surface entered or left fullscreen. `current_size` is the size of
    /// the surface at this moment, `display_size` the full size of the
    /// display, already taken through the scale factor.
    FullscreenChange { is_fullscreen: bool, current_size: PhysicalSize, display_size: PhysicalSize },
    /// The surface was resized: the new scale factor and the new physical
    /// size computed with it.
    Resize { scale_factor: ScaleFactor, new_inner_size: PhysicalSize },
    BeforeUnload,
}

/// What the host has to do after a notification was handled.
#[derive(Clone, Debug, PartialEq, Eq)]
pub struct Reaction<T> {
    /// The event of the turn that opened, to be handed to the listener.
    pub dispatch: Option<Event<T>>,
    /// The size to give the surface.
    pub resize_to: Option<PhysicalSize>,
    /// The refresh trigger was armed by this notification: the host's timer
    /// has to be started.
    pub start_timer: bool,
}

/// The size a surface gets on a fullscreen change: the display's on entry,
/// the remembered one on exit.
pub open spec fn fullscreen_size(
    is_fullscreen: bool,
    display_size: PhysicalSize,
    intended_size: PhysicalSize,
) -> PhysicalSize {
    if is_fullscreen {
        display_size
    } else {
        intended_size
    }
}

/// The keyboard event of `window` and the modifiers event that follows it,
/// both from the unspecified device and with the same modifiers.
pub open spec fn keyboard_events<T>(
    window: WindowId,
    state: ElementState,
    scancode: u32,
    virtual_keycode: Option<u32>,
    modifiers: ModifiersState,
) -> Seq<Event<T>> {
    seq![
        Event::WindowEvent {
            window_id: window,
            event: WindowEvent::KeyboardInput {
                device_id: DeviceId::Unspecified,
                input: KeyboardInput { scancode, state, virtual_keycode, modifiers },
                is_synthetic: false,
            },
        },
        Event::DeviceEvent {
            device_id: DeviceId::Unspecified,
            event: DeviceEvent::ModifiersChanged(modifiers),
        },
    ]
}

/// The window event that a notification other than a keyboard one or the
/// unload stands for.
pub open spec fn window_event(notification: Notification, intended_size: PhysicalSize) -> WindowEvent {
    match notification {
        Notification::Blur => WindowEvent::Focused(false),
        Notification::Focus => WindowEvent::Focused(true),
        Notification::ReceivedCharacter(c) => WindowEvent::ReceivedCharacter(c),
        Notification::CursorLeave { pointer_id } => WindowEvent::CursorLeft {
            device_id: DeviceId::Pointer(pointer_id),
        },
        Notification::CursorEnter { pointer_id } => WindowEvent::CursorEntered {
            device_id: DeviceId::Pointer(pointer_id),
        },
        Notification::CursorMove { pointer_id, position, modifiers } => WindowEvent::CursorMoved {
            device_id: DeviceId::Pointer(pointer_id),
            position,
            modifiers,
        },
        Notification::MousePress { pointer_id, button, modifiers } => WindowEvent::MouseInput {
            device_id: DeviceId::Pointer(pointer_id),
            state: ElementState::Pressed,
            button,
            modifiers,
        },
        Notification::MouseRelease { pointer_id, button, modifiers } => WindowEvent::MouseInput {
            device_id: DeviceId::Pointer(pointer_id),
            state: ElementState::Released,
            button,
            modifiers,
        },
        Notification::MouseWheel { pointer_id, delta, modifiers } => WindowEvent::MouseWheel {
            device_id: DeviceId::Pointer(pointer_id),
            delta,
            phase: TouchPhase::Moved,
            modifiers,
        },
        Notification::FullscreenChange { is_fullscreen, current_size, display_size } => {
            WindowEvent::Resized(fullscreen_size(is_fullscreen, display_size, intended_size))
        },
        Notification::Resize { scale_factor, new_inner_size } => WindowEvent::ScaleFactorChanged {
            scale_factor,
            new_inner_size,
        },
        _ => WindowEvent::Focused(false),
    }
}

/// The events that `notification` for `window` turns into, in the order in
/// which they are sent. `intended_size` is the size remembered for the
/// window. The unload turns into none: it closes the runner instead.
pub open spec fn translated<T>(
    window: WindowId,
    notification: Notification,
    intended_size: PhysicalSize,
) -> Seq<Event<T>> {
    match notification {
        Notification::KeyboardPress { scancode, virtual_keycode, modifiers } => keyboard_events(
            window,
            ElementState::Pressed,
            scancode,
            virtual_keycode,
            modifiers,
        ),
        Notification::KeyboardRelease { scancode, virtual_keycode, modifiers } => keyboard_events(
            window,
            ElementState::Released,
            scancode,
            virtual_keycode,
            modifiers,
        ),
        Notification::BeforeUnload => Seq::empty(),
        _ => seq![
            Event::WindowEvent {
                window_id: window,
                event: window_event(notification, intended_size),
            },
        ],
    }
}

/// Turns one notification into its events.
///
/// A key press or release gives two: the window's keyboard event and,
/// directly after it, the modifiers event with the same modifiers. A
/// fullscreen change gives `Resized` with the size the surface gets, a plain
/// resize gives a single `ScaleFactorChanged`.
pub fn translate<T>(window: WindowId, notification: Notification, intended_size: PhysicalSize) -> (events:
    Vec<Event<T>>)
    ensures
        events@ == translated::<T>(window, notification, intended_size),
{
    let mut events: Vec<Event<T>> = Vec::new();
    let event = match notification {
        Notification::KeyboardPress { scancode, virtual_keycode, modifiers } => {
            keyboard(&mut events, window, ElementState::Pressed, scancode, virtual_keycode, modifiers);
            return events;
        },
        Notification::KeyboardRelease { scancode, virtual_keycode, modifiers } => {
            keyboard(&mut events, window, ElementState::Released, scancode, virtual_keycode, modifiers);
            return events;
        },
        Notification::BeforeUnload => {
            assert(events@ =~= translated::<T>(window, notification, intended_size));
            return events;
        },
        Notification::Blur => WindowEvent::Focused(false),
        Notification::Focus => WindowEvent::Focused(true),
        Notification::ReceivedCharacter(c) => WindowEvent::ReceivedCharacter(c),
        Notification::CursorLeave { pointer_id } => WindowEvent::CursorLeft {
            device_id: DeviceId::pointer(pointer_id),
        },
        Notification::CursorEnter { pointer_id } => WindowEvent::CursorEntered {
            device_id: DeviceId::pointer(pointer_id),
        },
        Notification::CursorMove { pointer_id, position, modifiers } => WindowEvent::CursorMoved {
            device_id: DeviceId::pointer(pointer_id),
            position,
            modifiers,
        },
        Notification::MousePress { pointer_id, button, modifiers } => WindowEvent::MouseInput {
            device_id: DeviceId::pointer(pointer_id),
            state: ElementState::Pressed,
            button,
            modifiers,
        },
        Notification::MouseRelease { pointer_id, button, modifiers } => WindowEvent::MouseInput {
            device_id: DeviceId::pointer(pointer_id),
            state: ElementState::Released,
            button,
            modifiers,
        },
        Notification::MouseWheel { pointer_id, delta, modifiers } => WindowEvent::MouseWheel {
            device_id: DeviceId::pointer(pointer_id),
            delta,
            phase: TouchPhase::Moved,
            modifiers,
        },
        Notification::FullscreenChange { is_fullscreen, current_size, display_size } => {
            WindowEvent::Resized(
                if is_fullscreen {
                    display_size
                } else {
                    intended_size
                },
            )
        },
        Notification::Resize { scale_factor, new_inner_size } => WindowEvent::ScaleFactorChanged {
            scale_factor,
            new_inner_size,
        },
    };
    events.push(Event::WindowEvent { window_id: window, event });
    assert(events@ =~= translated::<T>(window, notification, intended_size));
    events
}

fn keyboard<T>(
    events: &mut Vec<Event<T>>,
    window: WindowId,
    state: ElementState,
    scancode: u32,
    virtual_keycode: Option<u32>,
    modifiers: ModifiersState,
)
    requires
        old(events)@.len() == 0,
    ensures
        final(events)@ == keyboard_events::<T>(window, state, scancode, virtual_keycode, modifiers),
{
    events.push(
        Event::WindowEvent {
            window_id: window,
            event: WindowEvent::KeyboardInput {
                device_id: DeviceId::dummy(),
                input: KeyboardInput { scancode, state, virtual_keycode, modifiers },
                is_synthetic: false,
            },
        },
    );
    events.push(
        Event::DeviceEvent {
            device_id: DeviceId::dummy(),
            event: DeviceEvent::ModifiersChanged(modifiers),
        },
    );
    assert(events@ =~= keyboard_events::<T>(window, state, scancode, virtual_keycode, modifiers));
}

/// The mathematical state of a window target.
pub ghost struct WindowTargetView<T> {
    pub runner: RunnerView<T>,
    /// The registered windows, each with the size to restore when it leaves
    /// fullscreen.
    pub intended: Map<WindowId, PhysicalSize>,
}

impl<T> WindowTargetView<T> {
    pub open spec fn is_registered(self, window: WindowId) -> bool {
        self.intended.dom().contains(window)
    }

    /// The events of `notification` for the registered window `window`.
    pub open spec fn events(self, window: WindowId, notification: Notification) -> Seq<Event<T>> {
        translated::<T>(window, notification, self.intended[window])
    }

    /// The runner after the events of the notification were sent, before the
    /// redraw request of a fullscreen change.
    pub open spec fn delivered(self, window: WindowId, notification: Notification) -> RunnerView<T> {
        self.runner.enqueue(self.events(window, notification)).begin_turn()
    }

    /// The state after `notification` for `window` was handled. One for a
    /// window that is not registered changes nothing.
    pub open spec fn notified(self, window: WindowId, notification: Notification) -> WindowTargetView<T> {
        if !self.is_registered(window) {
            self
        } else {
            match notification {
                Notification::BeforeUnload => WindowTargetView {
                    runner: self.runner.unload(),
                    ..self
                },
                Notification::FullscreenChange { is_fullscreen, current_size, display_size } => {
                    WindowTargetView {
                        runner: self.delivered(window, notification).request_redraw(window),
                        intended: if is_fullscreen {
                            self.intended.insert(window, current_size)
                        } else {
                            self.intended
                        },
                    }
                },
                _ => WindowTargetView { runner: self.delivered(window, notification), ..self },
            }
        }
    }

    /// The events that `notification` for `window` adds in this state: those
    /// it turns into for a registered window, none for another.
    pub open spec fn accepted_events(self, window: WindowId, notification: Notification) -> Seq<
        Event<T>,
    > {
        if self.is_registered(window) {
            self.events(window, notification)
        } else {
            Seq::empty()
        }
    }

    /// The state after the notifications of `fired` were handled one after
    /// another, each for its window.
    pub open spec fn notified_all(self, fired: Seq<(WindowId, Notification)>) -> WindowTargetView<T>
        decreases fired.len(),
    {
        if fired.len() == 0 {
            self
        } else {
            self.notified_all(fired.drop_last()).notified(fired.last().0, fired.last().1)
        }
    }

    /// The events of the notifications of `fired`, in firing order, each
    /// computed in the state that the earlier ones left.
    pub open spec fn events_of_all(self, fired: Seq<(WindowId, Notification)>) -> Seq<Event<T>>
        decreases fired.len(),
    {
        if fired.len() == 0 {
            Seq::empty()
        } else {
            self.events_of_all(fired.drop_last()) + self.notified_all(
                fired.drop_last(),
            ).accepted_events(fired.last().0, fired.last().1)
        }
    }

    /// What the host is told after `notification` for `window` was handled.
    pub open spec fn reaction(self, window: WindowId, notification: Notification) -> Reaction<T> {
        if !self.is_registered(window) {
            Reaction { dispatch: None, resize_to: None, start_timer: false }
        } else {
            match notification {
                Notification::BeforeUnload => Reaction {
                    dispatch: if self.runner.unload_observed() {
                        Some(Event::LoopDestroyed)
                    } else {
                        None
                    },
                    resize_to: None,
                    start_timer: false,
                },
                Notification::FullscreenChange { is_fullscreen, current_size, display_size } => {
                    Reaction {
                        dispatch: self.runner.enqueue(
                            self.events(window, notification),
                        ).next_dispatch(),
                        resize_to: Some(
                            fullscreen_size(is_fullscreen, display_size, self.intended[window]),
                        ),
                        start_timer: !self.delivered(window, notification).is_closed()
                            && !self.delivered(window, notification).armed,
                    }
                },
                _ => Reaction {
                    dispatch: self.runner.enqueue(self.events(window, notification)).next_dispatch(),
                    resize_to: None,
                    start_timer: false,
                },
            }
        }
    }
}

pub struct WindowTarget<T> {
    pub runner: Runner<T>,
    pub windows: RegistrationTable,
}

impl<T> View for WindowTarget<T> {
    type V = WindowTargetView<T>;

    open spec fn view(&self) -> WindowTargetView<T> {
        WindowTargetView { runner: self.runner@, intended: self.windows@ }
    }
}

impl<T> WindowTarget<T> {
    pub open spec fn wf(&self) -> bool {
        &&& self.runner.wf()
        &&& self.windows.wf()
    }

    /// A target with a new runner and no window registered.
    pub fn new() -> (target: WindowTarget<T>)
        ensures
            target.wf(),
            target@.runner == RunnerView::<T>::initial(),
            target@.intended == Map::<WindowId, PhysicalSize>::empty(),
    {
        WindowTarget { runner: Runner::new(), windows: RegistrationTable::new() }
    }

    /// A handle for injecting user events. It is the same handle for every
    /// target and leaves this one untouched: the runner that receives an
    /// event is the one handed to `Proxy::send_event`.
    pub fn proxy(&self) -> (proxy: Proxy)
        ensures
            proxy == (Proxy {  }),
    {
        Proxy::new()
    }

    /// Installs the listener, once, and opens the first turn if events came
    /// before it: see `Runner::set_listener`.
    pub fn run(&mut self) -> (outcome: Result<Option<Event<T>>, UsageError>)
        requires
            old(self).wf(),
        ensures
            final(self).wf(),
            final(self)@.intended == old(self)@.intended,
            match outcome {
                Ok(dispatch) => {
                    &&& !old(self)@.runner.has_listener
                    &&& final(self)@.runner == old(self)@.runner.install().begin_turn()
                    &&& dispatch == old(self)@.runner.install().next_dispatch()
                },
                Err(error) => {
                    &&& old(self)@.runner.has_listener
                    &&& error == UsageError::ListenerAlreadyInstalled
                    &&& final(self)@.runner == old(self)@.runner
                },
            },
    {
        self.runner.set_listener()
    }

    /// Issues a fresh window identifier, greater than every one issued
    /// before.
    pub fn generate_id(&mut self) -> (id: WindowId)
        requires
            old(self).wf(),
            old(self)@.runner.last_id < u32::MAX,
        ensures
            final(self).wf(),
            id.0 == old(self)@.runner.last_id + 1,
            final(self)@ == (WindowTargetView {
                runner: RunnerView { last_id: id.0, ..old(self)@.runner },
                ..old(self)@
            }),
    {
        WindowId(self.runner.generate_id())
    }

    /// Registers `window`, remembering `current_size` as the size to restore
    /// when it leaves fullscreen. Registering a window again replaces the
    /// remembered size. The runner is not touched.
    pub fn register(&mut self, window: WindowId, current_size: PhysicalSize)
        requires
            old(self).wf(),
        ensures
            final(self).wf(),
            final(self)@ == (WindowTargetView {
                intended: old(self)@.intended.insert(window, current_size),
                ..old(self)@
            }),
    {
        self.windows.insert(window, current_size);
    }

    /// The one handler for all that the event source reports of `window`.
    ///
    /// The notification is turned into its events, stamped with the window
    /// and the device, and these are sent to the runner in order. On entry to
    /// fullscreen the current size is remembered first; on a fullscreen
    /// change in either direction the surface is to be resized, to the
    /// display's size or back to the remembered one, and a redraw is
    /// requested for the window. The unload closes the runner. A
    /// notification for a window that is not registered is ignored.
    pub fn notify(&mut self, window: WindowId, notification: Notification) -> (reaction: Reaction<T>)
        requires
            old(self).wf(),
        ensures
            final(self).wf(),
            final(self)@ == old(self)@.notified(window, notification),
            reaction == old(self)@.reaction(window, notification),
            reaction.dispatch.is_some() ==> !old(self)@.runner.in_callback,
    {
        let intended_size = match self.windows.get(window) {
            Some(size) => size,
            None => {
                return Reaction { dispatch: None, resize_to: None, start_timer: false };
            },
        };
        match notification {
            Notification::BeforeUnload => {
                let dispatch = self.runner.handle_unload();
                Reaction { dispatch, resize_to: None, start_timer: false }
            },
            Notification::FullscreenChange { is_fullscreen, current_size, display_size } => {
                let events = translate(window, notification, intended_size);
                let new_size = if is_fullscreen {
                    self.windows.insert(window, current_size);
                    display_size
                } else {
                    intended_size
                };
                let dispatch = self.runner.send_events(events);
                let start_timer = self.runner.request_redraw(window);
                Reaction { dispatch, resize_to: Some(new_size), start_timer }
            },
            _ => {
                let events = translate(window, notification, intended_size);
                let dispatch = self.runner.send_events(events);
                Reaction { dispatch, resize_to: None, start_timer: false }
            },
        }
    }
}

/// Leaving fullscreen restores exactly the size that was captured when
/// fullscreen was last entered: whatever the surface and the display report
/// at the exit, the surface is resized to the size it had at the entry, the
/// `Resized` event carries that size, and the remembered size stays.
pub proof fn lemma_fullscreen_exit_restores_entry_size<T>(
    s: WindowTargetView<T>,
    window: WindowId,
    entry_size: PhysicalSize,
    entry_display: PhysicalSize,
    exit_size: PhysicalSize,
    exit_display: PhysicalSize,
)
    requires
        s.is_registered(window),
    ensures
        ({
            let enter = Notification::FullscreenChange {
                is_fullscreen: true,
                current_size: entry_size,
                display_size: entry_display,
            };
            let exit = Notification::FullscreenChange {
                is_fullscreen: false,
                current_size: exit_size,
                display_size: exit_display,
            };
            let inside = s.notified(window, enter);
            &&& s.reaction(window, enter).resize_to == Some(entry_display)
            &&& inside.intended[window] == entry_size
            &&& inside.reaction(window, exit).resize_to == Some(entry_size)
            &&& inside.events(window, exit) == seq![
                Event::<T>::WindowEvent { window_id: window, event: WindowEvent::Resized(entry_size) },
            ]
            &&& inside.notified(window, exit).intended[window] == entry_size
        }),
{
}

/// None of `fired` is the unload.
pub open spec fn none_unloads(fired: Seq<(WindowId, Notification)>) -> bool {
    forall|i: int| 0 <= i < fired.len() ==> (#[trigger] fired[i]).1 != Notification::BeforeUnload
}

/// All handlers feed one queue. Notifications that fire while a turn is
/// open, for whichever windows and of whichever kinds short of the unload,
/// open no turn of their own: their events join the queue in firing order,
/// behind what was waiting, and the turns that follow hand them out in that
/// order.
pub proof fn lemma_notifications_in_a_turn_are_fifo<T>(
    s: WindowTargetView<T>,
    fired: Seq<(WindowId, Notification)>,
    flows: Seq<ControlFlow>,
)
    requires
        s.runner.wf(),
        s.runner.in_callback,
        !s.runner.is_closed(),
        none_unloads(fired),
        none_exits(flows),
        flows.len() == s.runner.queue.len() + s.events_of_all(fired).len(),
    ensures
        s.notified_all(fired).runner.wf(),
        s.notified_all(fired).runner.in_callback,
        !s.notified_all(fired).runner.is_closed(),
        s.notified_all(fired).runner.queue == s.runner.queue + s.events_of_all(fired),
        forall|k: int|
            0 <= k < fired.len() ==> (#[trigger] s.notified_all(fired.take(k))).reaction(
                fired[k].0,
                fired[k].1,
            ).dispatch.is_none(),
        s.notified_all(fired).runner.drained(flows) == s.runner.queue + s.events_of_all(fired),
{
    lemma_notifications_join_the_queue(s, fired);
    lemma_drain_follows_queue(s.notified_all(fired).runner, flows);
    let queue = s.notified_all(fired).runner.queue;
    assert(queue.take(flows.len() as int) =~= queue);
}

proof fn lemma_notifications_join_the_queue<T>(
    s: WindowTargetView<T>,
    fired: Seq<(WindowId, Notification)>,
)
    requires
        s.runner.wf(),
        s.runner.in_callback,
        !s.runner.is_closed(),
        none_unloads(fired),
    ensures
        s.notified_all(fired).runner.wf(),
        s.notified_all(fired).runner.in_callback,
        s.notified_all(fired).runner.has_listener,
        !s.notified_all(fired).runner.is_closed(),
        s.notified_all(fired).runner.queue == s.runner.queue + s.events_of_all(fired),
        forall|k: int|
            0 <= k < fired.len() ==> (#[trigger] s.notified_all(fired.take(k))).reaction(
                fired[k].0,
                fired[k].1,
            ).dispatch.is_none(),
    decreases fired.len(),
{
    if fired.len() == 0 {
        assert(s.runner.queue + s.events_of_all(fired) =~= s.runner.queue);
    } else {
        let front = fired.drop_last();
        let last = fired.last();
        assert(none_unloads(front)) by {
            assert forall|i: int| 0 <= i < front.len() implies (#[trigger] front[i]).1
                != Notification::BeforeUnload by {
                assert(front[i] == fired[i]);
            }
        }
        lemma_notifications_join_the_queue(s, front);
        let before = s.notified_all(front);
        assert(last.1 != Notification::BeforeUnload);
        let added = before.accepted_events(last.0, last.1);
        assert(before.notified(last.0, last.1).runner.queue == before.runner.queue + added) by {
            if !before.is_registered(last.0) {
                assert(before.runner.queue + added =~= before.runner.queue);
            }
        }
        assert((s.runner.queue + s.events_of_all(front)) + added =~= s.runner.queue
            + s.events_of_all(fired));
        assert forall|k: int| 0 <= k < fired.len() implies (#[trigger] s.notified_all(
            fired.take(k),
        )).reaction(fired[k].0, fired[k].1).dispatch.is_none() by {
            if k < front.len() {
                assert(front.take(k) =~= fired.take(k));
                assert(front[k] == fired[k]);
            } else {
                assert(fired.take(k) =~= front);
            }
        }
    }
}

/// A key press is followed at once by the modifiers event with the same
/// modifiers: the two are sent back to back, so they sit next to each other
/// in the order of dispatch.
pub proof fn lemma_key_press_then_modifiers<T>(
    window: WindowId,
    scancode: u32,
    virtual_keycode: Option<u32>,
    modifiers: ModifiersState,
    intended_size: PhysicalSize,
)
    ensures
        translated::<T>(
            window,
            Notification::KeyboardPress { scancode, virtual_keycode, modifiers },
            intended_size,
        ) == seq![
            Event::<T>::WindowEvent {
                window_id: window,
                event: WindowEvent::KeyboardInput {
                    device_id: DeviceId::Unspecified,
                    input: KeyboardInput {
                        scancode,
                        state: ElementState::Pressed,
                        virtual_keycode,
                        modifiers,
                    },
                    is_synthetic: false,
                },
            },
            Event::<T>::DeviceEvent {
                device_id: DeviceId::Unspecified,
                event: DeviceEvent::ModifiersChanged(modifiers),
            },
        ],
{
}

} // verus!
