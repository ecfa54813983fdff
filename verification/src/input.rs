//! The input listener's decision logic: which control signal each
//! terminal event dispatches.

use vstd::prelude::*;

verus! {

/// One event from the terminal's blocking event stream.
#[derive(Clone, Copy, PartialEq, Eq, Structural, Debug)]
pub enum InputEvent {
    /// A key press, by its character.
    Key(char),
    /// A mouse event; reserved for future interactive features.
    Mouse,
    /// The terminal was resized to the given columns and rows.
    Resize(u16, u16),
}

/// The control signal an event dispatches.
#[derive(Clone, Copy, PartialEq, Eq, Structural, Debug)]
pub enum ControlAction {
    /// Restore the terminal and terminate with exit code zero.
    Quit,
    /// Invalidate the cached layout; the next draw must clear the whole
    /// screen first.
    Invalidate,
    /// No effect.
    Ignore,
}

/// The dispatch rule: `q` quits, a resize invalidates the cached layout,
/// and every other event is reserved and does nothing.
pub open spec fn spec_dispatch(e: InputEvent) -> ControlAction {
    match e {
        InputEvent::Key(c) => if c == 'q' {
            ControlAction::Quit
        } else {
            ControlAction::Ignore
        },
        InputEvent::Mouse => ControlAction::Ignore,
        InputEvent::Resize(_, _) => ControlAction::Invalidate,
    }
}

/// Decides the control signal for one input event.
pub fn dispatch(e: &InputEvent) -> (a: ControlAction)
    ensures
        a == spec_dispatch(*e),
{
    match e {
        InputEvent::Key(c) => {
            if *c == 'q' {
                ControlAction::Quit
            } else {
                ControlAction::Ignore
            }
        },
        InputEvent::Mouse => ControlAction::Ignore,
        InputEvent::Resize(_, _) => ControlAction::Invalidate,
    }
}

} // verus!
