//! The input listener's decisions.
//!
//! The listener waits for the next terminal event, lets [`on_event`] decide,
//! writes the intent back and does what the returned action says. Waiting,
//! printing and ending the process are the caller's part.

use vstd::prelude::*;
use crate::intent::InputIntent;

verus! {

/// The modifier keys held down during a key press.
#[derive(Clone, Copy, Debug, PartialEq, Eq, Structural)]
pub struct Modifiers {
    pub shift: bool,
    pub control: bool,
    pub alt: bool,
    pub super_key: bool,
    pub hyper: bool,
    pub meta: bool,
}

impl Modifiers {
    /// Control is held and no other modifier is.
    pub open spec fn only_control(self) -> bool {
        self.control && !self.shift && !self.alt && !self.super_key && !self.hyper && !self.meta
    }
}

/// The key of a key press, as far as the game tells keys apart.
#[derive(Clone, Copy, Debug, PartialEq, Eq, Structural)]
pub enum Key {
    /// A character key.
    Char(char),
    /// Any key that is no character: arrows, function keys, enter and so on.
    Other,
}

/// One key press.
#[derive(Clone, Copy, Debug, PartialEq, Eq, Structural)]
pub struct KeyPress {
    pub key: Key,
    pub modifiers: Modifiers,
}

impl KeyPress {
    /// The intent that this press leaves in the mailbox. Modifiers play no
    /// part, and a key that is no character clears the mailbox.
    pub open spec fn intent(self) -> InputIntent {
        match self.key {
            Key::Char(c) => InputIntent::of_char(c),
            Key::Other => InputIntent::Neutral,
        }
    }

    /// Whether this press is the reserved interrupt combination: `c` with
    /// control and nothing else held.
    pub open spec fn is_interrupt(self) -> bool {
        self.key == Key::Char('c') && self.modifiers.only_control()
    }
}

/// What the terminal reported.
#[derive(Clone, Copy, Debug, PartialEq, Eq, Structural)]
pub enum TerminalEvent {
    FocusGained,
    FocusLost,
    Key(KeyPress),
    /// The terminal was resized to this many columns and rows.
    Resize(u16, u16),
    /// Anything else: mouse activity, pasted text.
    Other,
}

/// Something worth telling the user that changes no state.
#[derive(Clone, Copy, Debug, PartialEq, Eq, Structural)]
pub enum Notice {
    FocusGained,
    FocusLost,
    /// The new number of columns and rows.
    Resized(u16, u16),
}

/// What the listener does after an event.
#[derive(Clone, Copy, Debug, PartialEq, Eq, Structural)]
pub enum ListenerAction {
    /// Wait for the next event.
    Continue,
    /// Show the notice, then wait for the next event.
    Report(Notice),
    /// Say goodbye and end the process.
    Quit,
}

/// The mailbox after `event`: a key press overwrites it, anything else leaves
/// it alone.
pub open spec fn intent_after(intent: InputIntent, event: TerminalEvent) -> InputIntent {
    match event {
        TerminalEvent::Key(press) => press.intent(),
        _ => intent,
    }
}

/// What the listener does after `event`.
pub open spec fn action_after(event: TerminalEvent) -> ListenerAction {
    match event {
        TerminalEvent::FocusGained => ListenerAction::Report(Notice::FocusGained),
        TerminalEvent::FocusLost => ListenerAction::Report(Notice::FocusLost),
        TerminalEvent::Resize(columns, rows) => ListenerAction::Report(Notice::Resized(columns, rows)),
        TerminalEvent::Key(press) => if press.is_interrupt() {
            ListenerAction::Quit
        } else {
            ListenerAction::Continue
        },
        TerminalEvent::Other => ListenerAction::Continue,
    }
}

/// Whether `modifiers` is control alone.
pub fn only_control(modifiers: &Modifiers) -> (only: bool)
    ensures
        only == modifiers.only_control(),
{
    modifiers.control && !modifiers.shift && !modifiers.alt && !modifiers.super_key
        && !modifiers.hyper && !modifiers.meta
}

/// Whether `press` is the reserved interrupt combination.
pub fn is_interrupt(press: &KeyPress) -> (interrupt: bool)
    ensures
        interrupt == press.is_interrupt(),
{
    match press.key {
        Key::Char(c) => c == 'c' && only_control(&press.modifiers),
        Key::Other => false,
    }
}

/// The intent that `press` leaves in the mailbox.
pub fn intent_of(press: &KeyPress) -> (intent: InputIntent)
    ensures
        intent == press.intent(),
{
    match press.key {
        Key::Char(c) => InputIntent::from_char(c),
        Key::Other => InputIntent::Neutral,
    }
}

/// Handles one terminal event.
///
/// A key press overwrites the mailbox with the intent of its key, or with
/// `Neutral` if the key stands for none; the interrupt combination
/// moreover asks to quit. Focus changes and resizes are reported and change
/// nothing. Everything else is ignored.
pub fn on_event(intent: &mut InputIntent, event: &TerminalEvent) -> (action: ListenerAction)
    ensures
        *final(intent) == intent_after(*old(intent), *event),
        action == action_after(*event),
{
    match event {
        TerminalEvent::FocusGained => ListenerAction::Report(Notice::FocusGained),
        TerminalEvent::FocusLost => ListenerAction::Report(Notice::FocusLost),
        TerminalEvent::Key(press) => {
            *intent = intent_of(press);
            if is_interrupt(press) {
                ListenerAction::Quit
            } else {
                ListenerAction::Continue
            }
        },
        TerminalEvent::Resize(columns, rows) => ListenerAction::Report(Notice::Resized(*columns, *rows)),
        TerminalEvent::Other => ListenerAction::Continue,
    }
}

} // verus!
