//! Platform input notifications and their translation into framework events.
use vstd::prelude::*;

verus! {

/// A mouse button as the platform names it.
#[derive(Clone, Copy, Debug, PartialEq, Eq, Structural)]
pub enum RawButton {
    Left,
    Right,
    Middle,
    Other(u8),
}

/// Whether the platform saw a button go down or up.
#[derive(Clone, Copy, Debug, PartialEq, Eq, Structural)]
pub enum RawState {
    Pressed,
    Released,
}

/// A mouse button as the framework names it.
#[derive(Clone, Copy, Debug, PartialEq, Eq, Structural)]
pub enum Button {
    Left,
    Right,
    Middle,
    Other(u8),
}

/// The state a button has entered.
#[derive(Clone, Copy, Debug, PartialEq, Eq, Structural)]
pub enum ButtonState {
    Pressed,
    Released,
}

/// A display scale factor, held as the exact ratio `numerator / denominator`.
#[derive(Clone, Copy, Debug, PartialEq, Eq, Structural)]
pub struct Scale {
    pub numerator: u32,
    pub denominator: u32,
}

impl Scale {
    pub open spec fn wf(self) -> bool {
        self.denominator > 0
    }
}

/// One framework input event, in physical pixels.
#[derive(Clone, Copy, Debug, PartialEq, Eq, Structural)]
pub enum Event {
    CursorMoved { x: i64, y: i64 },
    Input { button: Button, state: ButtonState },
}

/// A logical coordinate scaled to physical pixels, truncated toward zero.
pub open spec fn physical(v: int, scale: Scale) -> int
    recommends
        scale.wf(),
{
    if v >= 0 {
        (v * scale.numerator) / (scale.denominator as int)
    } else {
        -(((-v) * scale.numerator) / (scale.denominator as int))
    }
}

pub open spec fn button_of(b: RawButton) -> Button {
    match b {
        RawButton::Left => Button::Left,
        RawButton::Right => Button::Right,
        RawButton::Middle => Button::Middle,
        RawButton::Other(n) => Button::Other(n),
    }
}

pub open spec fn state_of(s: RawState) -> ButtonState {
    match s {
        RawState::Pressed => ButtonState::Pressed,
        RawState::Released => ButtonState::Released,
    }
}

/// Maps a platform mouse button to the framework's.
pub fn mouse_button(b: RawButton) -> (r: Button)
    ensures
        r == button_of(b),
{
    match b {
        RawButton::Left => Button::Left,
        RawButton::Right => Button::Right,
        RawButton::Middle => Button::Middle,
        RawButton::Other(n) => Button::Other(n),
    }
}

/// Maps a platform button state to the framework's.
pub fn button_state(s: RawState) -> (r: ButtonState)
    ensures
        r == state_of(s),
{
    match s {
        RawState::Pressed => ButtonState::Pressed,
        RawState::Released => ButtonState::Released,
    }
}

/// Scales one logical coordinate to physical pixels.
pub fn to_physical(v: i32, scale: Scale) -> (r: i64)
    requires
        scale.wf(),
    ensures
        r as int == physical(v as int, scale),
{
    let num = scale.numerator as u64;
    let den = scale.denominator as u64;
    if v >= 0 {
        let m = v as u64;
        assert(m * num <= 0x7fff_ffff * 0xffff_ffff) by (nonlinear_arith)
            requires m <= 0x7fff_ffff, num <= 0xffff_ffff;
        let q = (m * num) / den;
        assert(q <= m * num) by (nonlinear_arith)
            requires den > 0, q as int == (m * num) as int / den as int;
        q as i64
    } else {
        let m = (-(v as i64)) as u64;
        assert(m * num <= 0x8000_0000 * 0xffff_ffff) by (nonlinear_arith)
            requires m <= 0x8000_0000, num <= 0xffff_ffff;
        let q = (m * num) / den;
        assert(q <= m * num) by (nonlinear_arith)
            requires den > 0, q as int == (m * num) as int / den as int;
        -(q as i64)
    }
}

/// A notification from the platform's event source.
#[derive(Clone, Copy, Debug, PartialEq, Eq, Structural)]
pub enum Notification {
    /// No further events are pending: time to run a cycle.
    EventsCleared,
    /// The platform asks for the window to be repainted.
    RedrawRequested,
    /// The cursor moved to a position in logical coordinates.
    CursorMoved { x: i32, y: i32 },
    MouseInput { button: RawButton, state: RawState },
    CloseRequested,
    /// The window was resized; the document size stays as captured at startup.
    Resized { width: u32, height: u32 },
    /// Anything the driver does not react to.
    Other,
}

/// The framework event that an input notification becomes, if any.
pub open spec fn translated(n: Notification, scale: Scale) -> Option<Event> {
    match n {
        Notification::CursorMoved { x, y } => Some(
            Event::CursorMoved { x: physical(x as int, scale) as i64, y: physical(y as int, scale) as i64 },
        ),
        Notification::MouseInput { button, state } => Some(
            Event::Input { button: button_of(button), state: state_of(state) },
        ),
        _ => None,
    }
}

/// Translates one input notification into exactly one framework event;
/// every other notification gives none.
pub fn translate(n: Notification, scale: Scale) -> (r: Option<Event>)
    requires
        scale.wf(),
    ensures
        r == translated(n, scale),
{
    match n {
        Notification::CursorMoved { x, y } => {
            let px = to_physical(x, scale);
            let py = to_physical(y, scale);
            Some(Event::CursorMoved { x: px, y: py })
        },
        Notification::MouseInput { button, state } => Some(
            Event::Input { button: mouse_button(button), state: button_state(state) },
        ),
        _ => None,
    }
}

} // verus!
