//! The main loop's own decisions: whether it keeps running and which row of
//! the process list is selected. Sampling, rendering and waiting for input
//! are done by the caller, which hands each input in as a [`Command`].
use vstd::prelude::*;

verus! {

/// A command from the keyboard.
#[derive(PartialEq, Eq, Structural, Clone, Copy, Debug)]
pub enum Command {
    Quit,
    SelectPrevious,
    SelectNext,
    /// Reserved; it changes nothing.
    Reload,
}

/// `selected` brought into `[0, count - 1]`; zero when the list is empty.
pub open spec fn clamped(selected: nat, count: nat) -> nat {
    if count == 0 {
        0
    } else if selected >= count {
        (count - 1) as nat
    } else {
        selected
    }
}

/// Brings a selection into the bounds of a list of `count` rows.
pub fn clamp_selection(selected: usize, count: usize) -> (r: usize)
    ensures
        r == clamped(selected as nat, count as nat),
        count > 0 ==> r < count,
{
    if count == 0 {
        0
    } else if selected >= count {
        count - 1
    } else {
        selected
    }
}

/// The main loop's state: whether it runs, and the selected row.
pub struct Scheduler {
    pub running: bool,
    pub selected: usize,
}

/// The state after `cmd` arrives while a list of `count` rows is shown.
pub open spec fn after_command(s: Scheduler, cmd: Command, count: nat) -> Scheduler {
    match cmd {
        Command::Quit => Scheduler { running: false, selected: s.selected },
        Command::SelectPrevious => Scheduler {
            running: s.running,
            selected: clamped(
                if s.selected == 0 {
                    0
                } else {
                    (s.selected - 1) as nat
                },
                count,
            ) as usize,
        },
        Command::SelectNext => Scheduler {
            running: s.running,
            selected: clamped((s.selected + 1) as nat, count) as usize,
        },
        Command::Reload => s,
    }
}

impl Scheduler {
    /// A running loop with the first row selected.
    pub fn new() -> (r: Self)
        ensures
            r.running,
            r.selected == 0,
    {
        Scheduler { running: true, selected: 0 }
    }

    /// Start of a tick that shows `count` processes: the selection is
    /// brought back into the list, whose length may have changed.
    pub fn begin_tick(&mut self, count: usize)
        ensures
            final(self).running == old(self).running,
            final(self).selected == clamped(old(self).selected as nat, count as nat),
            count > 0 ==> final(self).selected < count,
    {
        self.selected = clamp_selection(self.selected, count);
    }

    /// Applies a command that arrived while `count` processes were shown.
    pub fn handle(&mut self, cmd: Command, count: usize)
        ensures
            *final(self) == after_command(*old(self), cmd, count as nat),
    {
        match cmd {
            Command::Quit => {
                self.running = false;
            },
            Command::SelectPrevious => {
                let prev = if self.selected == 0 {
                    0
                } else {
                    self.selected - 1
                };
                self.selected = clamp_selection(prev, count);
            },
            Command::SelectNext => {
                let next = if self.selected == usize::MAX {
                    usize::MAX
                } else {
                    self.selected + 1
                };
                self.selected = clamp_selection(next, count);
            },
            Command::Reload => {},
        }
    }
}

} // verus!
