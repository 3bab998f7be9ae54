use vstd::prelude::*;

verus! {

/// Life-cycle state of an emulated machine, as seen by the frame driver.
#[derive(Debug, PartialEq, Eq, Copy, Clone, Structural)]
pub enum State {
    Running,
    Paused,
    Finished,
    Off,
}

impl State {
    /// Pause a running machine, resume a paused one; any other state is kept.
    pub fn toggle_pause(self) -> (r: State)
        ensures
            r == (match self {
                State::Running => State::Paused,
                State::Paused => State::Running,
                _ => self,
            }),
    {
        match self {
            State::Running => State::Paused,
            State::Paused => State::Running,
            _ => self,
        }
    }
}

/// A move of the cursor in the list of programs shown while the machine is off.
#[derive(Debug, PartialEq, Eq, Copy, Clone, Structural)]
pub enum MenuMove {
    /// One entry up, from the first to the last.
    Up,
    /// One entry down, from the last to the first.
    Down,
    /// Ten entries up; near the top, to the last entry.
    PageUp,
    /// Ten entries down; near the bottom, to the first entry.
    PageDown,
}

/// The entry the cursor lands on after `step` in a list of `len` entries.
pub fn move_cursor(cursor: usize, len: usize, step: MenuMove) -> (r: usize)
    requires
        cursor < len,
    ensures
        r < len,
        r == (match step {
            MenuMove::Up => if cursor == 0 { len - 1 } else { cursor - 1 },
            MenuMove::Down => if cursor + 1 == len { 0 } else { cursor + 1 },
            MenuMove::PageUp => if cursor <= 10 { len - 1 } else { cursor - 10 },
            MenuMove::PageDown => if cursor + 10 >= len - 1 { 0 } else { cursor + 10 },
        }),
{
    match step {
        MenuMove::Up => if cursor == 0 {
            len - 1
        } else {
            cursor - 1
        },
        MenuMove::Down => if cursor + 1 == len {
            0
        } else {
            cursor + 1
        },
        MenuMove::PageUp => if cursor <= 10 {
            len - 1
        } else {
            cursor - 10
        },
        MenuMove::PageDown => if len - 1 - cursor <= 10 {
            0
        } else {
            cursor + 10
        },
    }
}

} // verus!
