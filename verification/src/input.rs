//! The interface's input dispatch: the decision from a raw terminal event
//! to the action the application loop performs.
//!
//! Polling and reading events, and performing the actions, are outside
//! work; the mapping itself is verified here.

use vstd::prelude::*;

verus! {

/// A key, as handed over by the terminal host.
#[derive(Clone, Copy, Debug)]
pub enum KeyPress {
    /// A character key.
    Char(char),
    /// The up arrow.
    Up,
    /// The down arrow.
    Down,
    /// The escape key.
    Esc,
    /// Any other key.
    Other,
}

/// One raw input event.
#[derive(Clone, Copy, Debug)]
pub enum InputEvent {
    /// A key was pressed. Key releases and repeats are not press events.
    KeyPressed(KeyPress),
    /// Any other event; the interface ignores it.
    Other,
}

/// What the application loop must do with an event.
#[derive(Clone, Copy, Debug)]
pub enum AppAction {
    /// Terminate the loop, then kill the current build process.
    Quit,
    /// Move the selection to the previous visual row.
    ScrollUp,
    /// Move the selection to the next visual row.
    ScrollDown,
    /// Do nothing.
    Ignore,
}

/// The action for each event: `q` and escape quit, `k` and the up arrow
/// scroll up, `j` and the down arrow scroll down; everything else is
/// ignored.
pub open spec fn spec_handle_event(event: InputEvent) -> AppAction {
    match event {
        InputEvent::KeyPressed(key) => match key {
            KeyPress::Char(c) => {
                if c == 'q' {
                    AppAction::Quit
                } else if c == 'k' {
                    AppAction::ScrollUp
                } else if c == 'j' {
                    AppAction::ScrollDown
                } else {
                    AppAction::Ignore
                }
            },
            KeyPress::Esc => AppAction::Quit,
            KeyPress::Up => AppAction::ScrollUp,
            KeyPress::Down => AppAction::ScrollDown,
            KeyPress::Other => AppAction::Ignore,
        },
        InputEvent::Other => AppAction::Ignore,
    }
}

/// Handle a specific user event triggered in the interface.
pub fn handle_event(event: &InputEvent) -> (r: AppAction)
    ensures
        r == spec_handle_event(*event),
{
    match event {
        InputEvent::KeyPressed(key) => match key {
            KeyPress::Char(c) => {
                if *c == 'q' {
                    AppAction::Quit
                } else if *c == 'k' {
                    AppAction::ScrollUp
                } else if *c == 'j' {
                    AppAction::ScrollDown
                } else {
                    AppAction::Ignore
                }
            },
            KeyPress::Esc => AppAction::Quit,
            KeyPress::Up => AppAction::ScrollUp,
            KeyPress::Down => AppAction::ScrollDown,
            KeyPress::Other => AppAction::Ignore,
        },
        InputEvent::Other => AppAction::Ignore,
    }
}

} // verus!
