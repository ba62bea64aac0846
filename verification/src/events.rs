//! The events a session consumes and the decisions of the input poller.

use vstd::prelude::*;

verus! {

/// The key that was pressed.
#[derive(Debug, Clone, Copy, PartialEq, Eq, Structural)]
pub enum KeyCode {
    Char(char),
    Enter,
    Esc,
    Backspace,
    /// A function key, by its number.
    F(u8),
    /// Any key the session has no use for.
    Other,
}

/// A key press.
#[derive(Debug, Clone, Copy, PartialEq, Eq, Structural)]
pub struct KeyEvent {
    pub code: KeyCode,
    /// Whether the control key was held.
    pub control: bool,
}

/// What reaches the control loop.
#[derive(Debug, Clone, Copy, PartialEq, Eq, Structural)]
pub enum AppEvent {
    /// A key was pressed.
    Input(KeyEvent),
    /// The tick interval passed without a key.
    Tick,
    /// Something changed under the root directory.
    FileChanged,
}

/// What the input poller does next.
#[derive(Debug, Clone, Copy, PartialEq, Eq, Structural)]
pub enum PollStep {
    /// Leave the terminal alone for one tick interval.
    Sleep,
    /// Wait up to one tick interval for input.
    Poll,
}

/// Decides the poller's next step: while the session is paused, because a
/// foreground program owns the terminal, the poller must not read input.
pub fn poll_step(paused: bool) -> (r: PollStep)
    ensures
        r == if paused {
            PollStep::Sleep
        } else {
            PollStep::Poll
        },
{
    if paused {
        PollStep::Sleep
    } else {
        PollStep::Poll
    }
}

/// What one poll of the terminal found.
#[derive(Debug, Clone, Copy, PartialEq, Eq, Structural)]
pub enum Polled {
    /// Nothing arrived within the tick interval.
    Timeout,
    /// A key press arrived.
    Key(KeyEvent),
    /// Something else arrived: a resize, the mouse, a paste.
    Ignored,
}

/// The event that a poll result puts on the channel, if any: a timeout
/// becomes a tick, a key press becomes input, anything else is dropped.
pub open spec fn event_of(polled: Polled) -> Option<AppEvent> {
    match polled {
        Polled::Timeout => Some(AppEvent::Tick),
        Polled::Key(k) => Some(AppEvent::Input(k)),
        Polled::Ignored => None,
    }
}

/// Turns a poll result into the event to send.
pub fn polled_event(polled: Polled) -> (r: Option<AppEvent>)
    ensures
        r == event_of(polled),
{
    match polled {
        Polled::Timeout => Some(AppEvent::Tick),
        Polled::Key(k) => Some(AppEvent::Input(k)),
        Polled::Ignored => None,
    }
}

/// The kind of a change that the file watcher reports.
#[derive(Debug, Clone, Copy, PartialEq, Eq, Structural)]
pub enum ChangeKind {
    Create,
    Modify,
    Remove,
    Access,
    Other,
}

/// Whether a reported change makes the document list stale: anything that
/// creates, modifies or removes.
pub fn change_matters(kind: ChangeKind) -> (r: bool)
    ensures
        r == (kind == ChangeKind::Create || kind == ChangeKind::Modify || kind
            == ChangeKind::Remove),
{
    match kind {
        ChangeKind::Create => true,
        ChangeKind::Modify => true,
        ChangeKind::Remove => true,
        _ => false,
    }
}

} // verus!
