//! Decision core of the interactive client UI.
//!
//! The terminal loop itself (raw mode, polling, drawing) is unverified I/O
//! and lives outside this crate; it feeds every key press through
//! [`App::handle_key`], which is the entire state transition of the UI.

pub mod app;

use vstd::prelude::*;

verus! {

/// A key press as the UI understands it.
pub enum UiKey {
    /// A printable character.
    Char(char),
    /// The down arrow.
    Down,
    /// The up arrow.
    Up,
    /// Any other key.
    Other,
}

/// Keys that move the selection one task down (`j` or the down arrow).
pub open spec fn moves_down(key: UiKey) -> bool {
    key == UiKey::Char('j') || key == UiKey::Down
}

/// Keys that move the selection one task up (`k` or the up arrow).
pub open spec fn moves_up(key: UiKey) -> bool {
    key == UiKey::Char('k') || key == UiKey::Up
}

/// The key that quits the UI.
pub open spec fn quits(key: UiKey) -> bool {
    key == UiKey::Char('q')
}

/// The state the UI loop keeps between key presses.
pub struct App {
    pub selected_task: usize,
}

impl App {
    /// Applies one key press; the result tells the loop whether to exit.
    ///
    /// Moving below task zero or past the largest index is a caller contract
    /// violation, hence the preconditions; the shell guards them.
    pub fn handle_key(&mut self, key: UiKey) -> (quit: bool)
        requires
            moves_down(key) ==> old(self).selected_task > 0,
            moves_up(key) ==> old(self).selected_task < usize::MAX,
        ensures
            moves_down(key) ==> final(self).selected_task == old(self).selected_task - 1,
            moves_up(key) ==> final(self).selected_task == old(self).selected_task + 1,
            !moves_down(key) && !moves_up(key) ==> final(self).selected_task == old(
                self,
            ).selected_task,
            quit == quits(key),
    {
        match key {
            UiKey::Char(c) => {
                if c == 'j' {
                    self.selected_task = self.selected_task - 1;
                    false
                } else if c == 'k' {
                    self.selected_task = self.selected_task + 1;
                    false
                } else {
                    c == 'q'
                }
            },
            UiKey::Down => {
                self.selected_task = self.selected_task - 1;
                false
            },
            UiKey::Up => {
                self.selected_task = self.selected_task + 1;
                false
            },
            UiKey::Other => false,
        }
    }
}

} // verus!
