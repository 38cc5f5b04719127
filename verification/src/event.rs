//! The values that travel through the runner: identifiers, sizes, input
//! payloads, the event union and the control-flow policy.

use vstd::prelude::*;

verus! {

/// Identifies one window (surface) for the lifetime of the process.
#[derive(Clone, Copy, Debug, PartialEq, Eq, Hash)]
pub struct WindowId(pub u32);

/// Identifies the device an event came from. `Unspecified` is the sentinel
/// used when the originating device cannot be determined; being a variant of
/// its own it differs from every pointer identifier.
#[derive(Clone, Copy, Debug, PartialEq, Eq, Hash)]
pub enum DeviceId {
    Unspecified,
    Pointer(i32),
}

impl DeviceId {
    /// The sentinel identifier; every call returns the same value.
    pub fn dummy() -> (id: DeviceId)
        ensures
            id == DeviceId::Unspecified,
            forall|pointer: i32| id != DeviceId::Pointer(pointer),
    {
        DeviceId::Unspecified
    }

    /// The identifier of the pointer device `pointer`.
    pub fn pointer(pointer: i32) -> (id: DeviceId)
        ensures
            id == DeviceId::Pointer(pointer),
            id != DeviceId::Unspecified,
    {
        DeviceId::Pointer(pointer)
    }
}

/// A size in physical pixels.
#[derive(Clone, Copy, Debug, PartialEq, Eq, Hash)]
pub struct PhysicalSize {
    pub width: u32,
    pub height: u32,
}

/// A position in physical pixels.
#[derive(Clone, Copy, Debug, PartialEq, Eq, Hash)]
pub struct PhysicalPosition {
    pub x: i32,
    pub y: i32,
}

/// A display scale factor, carried as the IEEE-754 bit pattern of the
/// double-precision value so that it can be compared and stored exactly.
#[derive(Clone, Copy, Debug, PartialEq, Eq, Hash)]
pub struct ScaleFactor {
    pub bits: u64,
}

/// The set of modifier keys held down, as a bit set.
#[derive(Clone, Copy, Debug, PartialEq, Eq, Hash)]
pub struct ModifiersState {
    pub bits: u32,
}

#[derive(Clone, Copy, Debug, PartialEq, Eq, Hash)]
pub enum ElementState {
    Pressed,
    Released,
}

#[derive(Clone, Copy, Debug, PartialEq, Eq, Hash)]
pub enum MouseButton {
    Left,
    Right,
    Middle,
    Other(u8),
}

#[derive(Clone, Copy, Debug, PartialEq, Eq, Hash)]
pub enum TouchPhase {
    Started,
    Moved,
    Ended,
    Cancelled,
}

/// A wheel movement, in whole lines or whole pixels.
#[derive(Clone, Copy, Debug, PartialEq, Eq, Hash)]
pub enum MouseScrollDelta {
    LineDelta(i32, i32),
    PixelDelta(i32, i32),
}

#[derive(Clone, Copy, Debug, PartialEq, Eq, Hash)]
pub struct KeyboardInput {
    pub scancode: u32,
    pub state: ElementState,
    pub virtual_keycode: Option<u32>,
    pub modifiers: ModifiersState,
}

/// An event scoped to one window.
#[derive(Clone, Copy, Debug, PartialEq, Eq, Hash)]
pub enum WindowEvent {
    Focused(bool),
    KeyboardInput { device_id: DeviceId, input: KeyboardInput, is_synthetic: bool },
    ReceivedCharacter(char),
    CursorEntered { device_id: DeviceId },
    CursorLeft { device_id: DeviceId },
    CursorMoved { device_id: DeviceId, position: PhysicalPosition, modifiers: ModifiersState },
    MouseInput {
        device_id: DeviceId,
        state: ElementState,
        button: MouseButton,
        modifiers: ModifiersState,
    },
    MouseWheel {
        device_id: DeviceId,
        delta: MouseScrollDelta,
        phase: TouchPhase,
        modifiers: ModifiersState,
    },
    Resized(PhysicalSize),
    ScaleFactorChanged { scale_factor: ScaleFactor, new_inner_size: PhysicalSize },
}

/// An event scoped to one device.
#[derive(Clone, Copy, Debug, PartialEq, Eq, Hash)]
pub enum DeviceEvent {
    ModifiersChanged(ModifiersState),
}

/// Everything the listener can be handed. `T` is the payload of the events
/// that the application injects itself.
#[derive(Clone, Debug, PartialEq, Eq)]
#[allow(inconsistent_fields)]
pub enum Event<T> {
    WindowEvent { window_id: WindowId, event: WindowEvent },
    DeviceEvent { device_id: DeviceId, event: DeviceEvent },
    UserEvent(T),
    RedrawRequested(WindowId),
    /// The synthetic wake-up: the deadline of `WaitUntil` passed without
    /// other input.
    ResumeTimeReached { deadline: u64 },
    /// The terminal notification: the loop is being torn down.
    LoopDestroyed,
}

/// The policy that governs whether and when the runner asks for more events.
/// The deadline of `WaitUntil` is a point on the host's monotonic clock, in
/// milliseconds.
#[derive(Clone, Copy, Debug, PartialEq, Eq, Hash)]
pub enum ControlFlow {
    Poll,
    Wait,
    WaitUntil(u64),
    Exit,
}

impl ControlFlow {
    pub open spec fn is_exit(self) -> bool {
        self == ControlFlow::Exit
    }

    pub open spec fn is_poll(self) -> bool {
        self == ControlFlow::Poll
    }
}

} // verus!
