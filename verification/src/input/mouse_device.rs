//! The mouse: pointer events become pointer moves and button presses.
//!
//! [`Mouse::send_event`] does not touch the host. It says, step by step, what
//! is to be done there; the platform layer carries the steps out in order and
//! asks [`MouseAction::halts_on_failure`] when one of them fails. An event
//! whose window cannot be found, or whose move fails, is skipped as a whole.

use vstd::prelude::*;
use crate::protocol::Button;
use crate::protocol::PointerEvent;
use crate::protocol::PointerEventType;
use crate::window::WindowInfo;

verus! {

/// A button of the host's mouse.
#[derive(Clone, Copy, Debug, PartialEq, Eq, Structural)]
pub enum MouseButton {
    Left,
    Middle,
    Right,
}

/// One step on the host.
#[derive(Clone, Copy, Debug, PartialEq, Eq, Structural)]
pub enum MouseAction {
    /// Bring the window to the front and give it the focus.
    ActivateWindow { id: u64 },
    /// Read where the window lies on the screen.
    QueryGeometry { id: u64 },
    /// Move the pointer. `x` and `y` are the event's coordinates, relative to
    /// the capture target.
    MoveTo { x: u64, y: u64 },
    /// Press or release a button where the pointer is.
    Toggle { button: MouseButton, down: bool },
}

impl MouseAction {
    /// Whether the steps after this one are given up when it fails. A window
    /// that cannot be found gets no input, and a pointer that could not be
    /// moved has no button toggled where it was left: the event is skipped.
    /// A toggle is the last kind of step and gives nothing up.
    pub open spec fn halts(self) -> bool {
        self is ActivateWindow || self is QueryGeometry || self is MoveTo
    }

    /// Tells whether the steps after this one are given up when it fails.
    pub fn halts_on_failure(&self) -> (r: bool)
        ensures
            r == self.halts(),
    {
        match self {
            MouseAction::ActivateWindow { .. } => true,
            MouseAction::QueryGeometry { .. } => true,
            MouseAction::MoveTo { .. } => true,
            MouseAction::Toggle { .. } => false,
        }
    }
}

/// The steps that find the capture target again: none for the desktop, which
/// is always there.
pub open spec fn window_steps(winfo: WindowInfo) -> Seq<MouseAction> {
    match winfo {
        WindowInfo::Desktop => Seq::empty(),
        WindowInfo::Window { id } => seq![
            MouseAction::ActivateWindow { id },
            MouseAction::QueryGeometry { id },
        ],
    }
}

/// The button steps of an event: a press of the event's button, a release of
/// every button, or nothing.
pub open spec fn button_steps(event: PointerEvent) -> Seq<MouseAction> {
    match event.event_type {
        PointerEventType::DOWN => match event.button {
            Button::PRIMARY => seq![MouseAction::Toggle { button: MouseButton::Left, down: true }],
            Button::AUXILARY => seq![
                MouseAction::Toggle { button: MouseButton::Middle, down: true },
            ],
            Button::SECONDARY => seq![
                MouseAction::Toggle { button: MouseButton::Right, down: true },
            ],
            Button::NONE => Seq::empty(),
        },
        PointerEventType::UP => seq![
            MouseAction::Toggle { button: MouseButton::Left, down: false },
            MouseAction::Toggle { button: MouseButton::Middle, down: false },
            MouseAction::Toggle { button: MouseButton::Right, down: false },
        ],
        _ => Seq::empty(),
    }
}

/// All steps of an event, in order: find the target, move, toggle. An event
/// that is not from the primary pointer has none.
pub open spec fn mouse_actions(winfo: WindowInfo, event: PointerEvent) -> Seq<MouseAction> {
    if event.is_primary {
        window_steps(winfo) + seq![MouseAction::MoveTo { x: event.x, y: event.y }] + button_steps(
            event,
        )
    } else {
        Seq::empty()
    }
}

/// A mouse that acts on one capture target.
#[derive(Clone, Copy, Debug, PartialEq, Eq, Structural)]
pub struct Mouse {
    winfo: WindowInfo,
}

impl Mouse {
    /// The capture target.
    pub closed spec fn target(&self) -> WindowInfo {
        self.winfo
    }

    /// A mouse for the target `winfo`.
    pub fn new(winfo: WindowInfo) -> (mouse: Mouse)
        ensures
            mouse.target() == winfo,
    {
        Self { winfo: winfo }
    }

    /// The capture target.
    pub fn winfo(&self) -> (winfo: WindowInfo)
        ensures
            winfo == self.target(),
    {
        self.winfo
    }

    /// The steps on the host that `event` calls for.
    pub fn send_event(&mut self, event: &PointerEvent) -> (actions: Vec<MouseAction>)
        ensures
            actions@ == mouse_actions(old(self).target(), *event),
            final(self).target() == old(self).target(),
    {
        let mut actions: Vec<MouseAction> = Vec::new();
        if !event.is_primary {
            return actions;
        }
        match self.winfo {
            WindowInfo::Desktop => {},
            WindowInfo::Window { id } => {
                actions.push(MouseAction::ActivateWindow { id });
                actions.push(MouseAction::QueryGeometry { id });
            },
        }
        actions.push(MouseAction::MoveTo { x: event.x, y: event.y });
        match event.event_type {
            PointerEventType::DOWN => match event.button {
                Button::PRIMARY => actions.push(
                    MouseAction::Toggle { button: MouseButton::Left, down: true },
                ),
                Button::AUXILARY => actions.push(
                    MouseAction::Toggle { button: MouseButton::Middle, down: true },
                ),
                Button::SECONDARY => actions.push(
                    MouseAction::Toggle { button: MouseButton::Right, down: true },
                ),
                _ => (),
            },
            PointerEventType::UP => {
                actions.push(MouseAction::Toggle { button: MouseButton::Left, down: false });
                actions.push(MouseAction::Toggle { button: MouseButton::Middle, down: false });
                actions.push(MouseAction::Toggle { button: MouseButton::Right, down: false });
            },
            _ => (),
        }
        assert(actions@ =~= mouse_actions(self.winfo, *event));
        actions
    }
}

/// An event that is not from the primary pointer leaves the host alone.
pub proof fn lemma_secondary_pointer_is_ignored(winfo: WindowInfo, event: PointerEvent)
    requires
        !event.is_primary,
    ensures
        mouse_actions(winfo, event).len() == 0,
{
}

/// A mouse bound to a window finds its window again for every event, before
/// anything else, then moves, and gives the event up if any of the three
/// fails. The steps after them are toggles, which give nothing up.
pub proof fn lemma_window_is_resolved_first(id: u64, event: PointerEvent)
    requires
        event.is_primary,
    ensures
        ({
            let actions = mouse_actions(WindowInfo::Window { id }, event);
            &&& actions.len() >= 3
            &&& actions[0] == MouseAction::ActivateWindow { id }
            &&& actions[1] == MouseAction::QueryGeometry { id }
            &&& actions[2] == MouseAction::MoveTo { x: event.x, y: event.y }
            &&& forall|i: int| 0 <= i < actions.len() ==> (#[trigger] actions[i].halts() <==> i < 3)
        }),
{
    let actions = mouse_actions(WindowInfo::Window { id }, event);
    let steps = button_steps(event);
    assert forall|i: int| 0 <= i < steps.len() implies (#[trigger] steps[i]) is Toggle by {}
    assert forall|i: int| 3 <= i < actions.len() implies (#[trigger] actions[i]) == steps[i - 3] by {}
}

/// On the desktop the move comes first, and no button is toggled unless it
/// succeeded: every step before a toggle halts the event when it fails.
pub proof fn lemma_failed_step_skips_the_toggles(winfo: WindowInfo, event: PointerEvent)
    ensures
        ({
            let actions = mouse_actions(winfo, event);
            forall|i: int, j: int|
                0 <= i < j < actions.len() && (#[trigger] actions[j]) is Toggle && !(
                #[trigger] actions[i] is Toggle) ==> actions[i].halts()
        }),
{
}

} // verus!
