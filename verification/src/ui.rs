//! The event-driven session state machine. Timer ticks and keypresses
//! arrive as one ordered stream; the consumer redraws on every tick while
//! running, ends the session on the quit or interrupt key, restoring the
//! terminal exactly once, and ignores every other key. The terminated
//! state is absorbing.

use vstd::prelude::*;

verus! {

/// A decoded keypress, as the library sees it.
#[derive(Debug, Clone, Copy, PartialEq, Eq, Structural)]
pub enum KeyPress {
    /// A plain character key.
    Plain(char),
    /// A character pressed together with the control key.
    Ctrl(char),
    /// Any other key.
    Other,
}

/// One event of the multiplexed stream.
#[derive(Debug, Clone, Copy, PartialEq, Eq, Structural)]
pub enum UiEvent {
    /// The fixed-period timer fired.
    Tick,
    /// A key arrived from the keyboard reader.
    Input(KeyPress),
}

/// The session state.
#[derive(Debug, Clone, Copy, PartialEq, Eq, Structural)]
pub enum UiState {
    /// Rendering frames and listening for keys.
    Running,
    /// The session is over; no further event has any effect.
    Terminated,
}

/// What the session loop must do after consuming one event.
#[derive(Debug, Clone, Copy, PartialEq, Eq, Structural)]
pub enum UiAction {
    /// Re-sample both streams and draw a full frame.
    Redraw,
    /// Restore the terminal (cursor visible, flush) and exit with success.
    Restore,
    /// Do nothing.
    Ignore,
}

/// Whether the key ends the session: the quit key or the interrupt key.
pub open spec fn is_quit_key(k: KeyPress) -> bool {
    k == KeyPress::Plain('q') || k == KeyPress::Ctrl('c')
}

/// Consume one event: on a tick while running, redraw and stay running;
/// on the quit or interrupt key while running, restore the terminal and
/// terminate; on any other key, no state change and no visible effect.
/// Once terminated, every event is ignored, so the terminal is restored
/// at most once per session.
pub fn step(s: UiState, e: UiEvent) -> (r: (UiState, UiAction))
    ensures
        s is Terminated ==> r == (UiState::Terminated, UiAction::Ignore),
        s is Running && e is Tick ==> r == (UiState::Running, UiAction::Redraw),
        s is Running && (e matches UiEvent::Input(k) && is_quit_key(k)) ==> r == (
            UiState::Terminated,
            UiAction::Restore,
        ),
        s is Running && (e matches UiEvent::Input(k) && !is_quit_key(k)) ==> r == (
            UiState::Running,
            UiAction::Ignore,
        ),
{
    match s {
        UiState::Terminated => (UiState::Terminated, UiAction::Ignore),
        UiState::Running => match e {
            UiEvent::Tick => (UiState::Running, UiAction::Redraw),
            UiEvent::Input(k) => {
                let quit = match k {
                    KeyPress::Plain(c) => c == 'q',
                    KeyPress::Ctrl(c) => c == 'c',
                    KeyPress::Other => false,
                };
                if quit {
                    (UiState::Terminated, UiAction::Restore)
                } else {
                    (UiState::Running, UiAction::Ignore)
                }
            },
        },
    }
}

} // verus!
