//! Bookkeeping of the terminal modes a session has switched on, so that
//! leaving the session undoes exactly those.

use vstd::prelude::*;

verus! {

/// Which terminal modes are on.
#[derive(Debug, Default)]
pub struct TerminalSession {
    pub raw_mode_enabled: bool,
    pub alternate_screen_enabled: bool,
    pub cursor_hidden: bool,
}

/// What restoring the terminal has to do.
#[derive(Debug, Clone, Copy, PartialEq, Eq, Structural)]
pub struct RestoreSteps {
    /// Show the cursor and leave the alternate screen.
    pub show_cursor_and_leave_screen: bool,
    /// Switch raw mode off.
    pub disable_raw_mode: bool,
}

impl TerminalSession {
    /// A session with nothing switched on.
    pub fn new() -> (s: Self)
        ensures
            !s.raw_mode_enabled && !s.alternate_screen_enabled && !s.cursor_hidden,
    {
        TerminalSession { raw_mode_enabled: false, alternate_screen_enabled: false, cursor_hidden: false }
    }

    /// Records that raw mode is on.
    pub fn mark_raw_mode(&mut self)
        ensures
            final(self).raw_mode_enabled,
            final(self).alternate_screen_enabled == old(self).alternate_screen_enabled,
            final(self).cursor_hidden == old(self).cursor_hidden,
    {
        self.raw_mode_enabled = true;
    }

    /// Records that the alternate screen is entered and the cursor hidden.
    pub fn mark_screen_entered(&mut self)
        ensures
            final(self).raw_mode_enabled == old(self).raw_mode_enabled,
            final(self).alternate_screen_enabled,
            final(self).cursor_hidden,
    {
        self.alternate_screen_enabled = true;
        self.cursor_hidden = true;
    }

    /// The steps that undo what is on: the screen and cursor when either was
    /// changed, raw mode when it was switched on.
    pub fn restore_steps(&self) -> (steps: RestoreSteps)
        ensures
            steps.show_cursor_and_leave_screen == (self.cursor_hidden
                || self.alternate_screen_enabled),
            steps.disable_raw_mode == self.raw_mode_enabled,
    {
        RestoreSteps {
            show_cursor_and_leave_screen: self.cursor_hidden || self.alternate_screen_enabled,
            disable_raw_mode: self.raw_mode_enabled,
        }
    }

    /// Records that everything is restored; restoring again does nothing.
    pub fn mark_restored(&mut self)
        ensures
            !final(self).raw_mode_enabled,
            !final(self).alternate_screen_enabled,
            !final(self).cursor_hidden,
            !final(self).restore_steps_spec().show_cursor_and_leave_screen,
            !final(self).restore_steps_spec().disable_raw_mode,
    {
        self.cursor_hidden = false;
        self.alternate_screen_enabled = false;
        self.raw_mode_enabled = false;
    }

    pub open spec fn restore_steps_spec(self) -> RestoreSteps {
        RestoreSteps {
            show_cursor_and_leave_screen: self.cursor_hidden || self.alternate_screen_enabled,
            disable_raw_mode: self.raw_mode_enabled,
        }
    }
}

} // verus!
