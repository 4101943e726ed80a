//! An older, smaller blinds manager kept alongside `curtain`: it only
//! toggles, and always tells the hardware about the new position.

use vstd::prelude::*;

use crate::curtain::{command_for, Command};
use crate::datetime::Instant;

verus! {

/// The blinds state: whether they are open, and when they last moved.
#[derive(Clone, Copy, Debug)]
pub struct Manager {
    pub open: bool,
    pub last_action: Option<Instant>,
}

impl Manager {
    /// A manager over blinds that start closed.
    pub fn new() -> (m: Manager)
        ensures
            !m.open,
            m.last_action is None,
    {
        Manager { open: false, last_action: None }
    }

    /// Returns if the blinds are open.
    pub fn is_open(&self) -> (r: bool)
        ensures
            r == self.open,
    {
        self.open
    }

    /// Toggles the blinds state and says what to tell the hardware.
    pub fn toggle(&mut self) -> (r: (bool, Command))
        ensures
            final(self).open == !old(self).open,
            final(self).last_action == old(self).last_action,
            r.0 == final(self).open,
            r.1 == command_for(final(self).open),
    {
        self.open = !self.open;
        let c = move_blinds(self.open);
        (self.open, c)
    }
}

/// The command that moves the blinds to the given position: open them when
/// `open` holds, close them otherwise.
pub fn move_blinds(open: bool) -> (c: Command)
    ensures
        c == command_for(open),
{
    if open {
        Command::Open
    } else {
        Command::Close
    }
}

} // verus!
