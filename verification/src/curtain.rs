//! The blinds state, with idempotent open and close.
//!
//! The manager tracks whether the blinds are open.  Each mutation says which
//! command, if any, the hardware must be sent: the caller performs the
//! command (which blocks on hardware) and is expected to hold one writer at
//! a time over the state.

use vstd::prelude::*;

use crate::datetime::Instant;

verus! {

/// What the hardware is told to do.
#[derive(Clone, Copy, PartialEq, Eq, Structural, Debug)]
pub enum Command {
    Open,
    Close,
}

/// The command that drives the blinds to the given position.
pub open spec fn command_for(open: bool) -> Command {
    if open {
        Command::Open
    } else {
        Command::Close
    }
}

/// The blinds state: whether they are open, and when they last moved.
#[derive(Clone, Copy, Debug)]
pub struct Manager {
    pub open: bool,
    pub last_action: Option<Instant>,
}

impl Manager {
    /// A manager over blinds that start closed.
    pub fn new() -> (m: Manager)
        ensures
            !m.open,
            m.last_action is None,
    {
        Manager { open: false, last_action: None }
    }

    /// Returns if the blinds are open.
    pub fn is_open(&self) -> (r: bool)
        ensures
            r == self.open,
    {
        self.open
    }

    /// Moves the blinds to the specified position.  A command is issued
    /// exactly when the position changes.
    pub fn move_blinds(&mut self, open: bool) -> (c: Option<Command>)
        ensures
            final(self).open == open,
            final(self).last_action == old(self).last_action,
            c == (if old(self).open == open {
                None::<Command>
            } else {
                Some(command_for(open))
            }),
    {
        if open {
            self.open_blinds()
        } else {
            self.close_blinds()
        }
    }

    /// Opens the blinds if they are closed.
    pub fn open_blinds(&mut self) -> (c: Option<Command>)
        ensures
            final(self).open,
            final(self).last_action == old(self).last_action,
            c == (if old(self).open {
                None::<Command>
            } else {
                Some(Command::Open)
            }),
    {
        if !self.open {
            self.open = true;
            Some(Command::Open)
        } else {
            None
        }
    }

    /// Closes the blinds if they are open.
    pub fn close_blinds(&mut self) -> (c: Option<Command>)
        ensures
            !final(self).open,
            final(self).last_action == old(self).last_action,
            c == (if old(self).open {
                Some(Command::Close)
            } else {
                None::<Command>
            }),
    {
        if self.open {
            self.open = false;
            Some(Command::Close)
        } else {
            None
        }
    }

    /// Toggles the blinds state.  A command for the new position is always
    /// issued, whatever the hardware was last told.
    pub fn toggle_blinds(&mut self) -> (r: (bool, Command))
        ensures
            final(self).open == !old(self).open,
            final(self).last_action == old(self).last_action,
            r.0 == final(self).open,
            r.1 == command_for(final(self).open),
    {
        let new_state = !self.open;
        self.open = new_state;
        if new_state {
            (new_state, Command::Open)
        } else {
            (new_state, Command::Close)
        }
    }
}

} // verus!
