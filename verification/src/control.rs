//! The foreground control loop's per-tick decision.
//!
//! The host polls the terminal with a timeout each tick and hands whatever
//! key arrived (if any) to `ControlLoop::step`, together with the progress
//! snapshot the worker last published.  The step toggles the shared pause
//! intent on the pause key, leaves the loop on the quit key — the only
//! transition out of the running phase — and otherwise renders the progress
//! line, skipping the render when the total duration is unknown.

use crate::progress::ProgressSnapshot;
use crate::progress::progress_line;
use crate::progress::render_progress;
use crate::state::PlaybackState;
use vstd::prelude::*;

verus! {

/// A key event as the control loop understands it.  The host translates the
/// terminal's raw key codes into this.
#[derive(Clone, Copy, PartialEq, Eq, Structural, Debug)]
pub enum KeyPress {
    /// A printable character key.
    Char(char),
    /// The escape key.
    Esc,
    /// Any other key.
    Other,
}

/// The key that toggles pause/resume.
pub const PAUSE_KEY: char = 'p';

/// Whether `k` is the designated pause/resume key.
pub open spec fn is_pause_key(k: KeyPress) -> bool {
    k == KeyPress::Char(PAUSE_KEY)
}

/// Whether `k` is the designated quit key.
pub open spec fn is_quit_key(k: KeyPress) -> bool {
    k == KeyPress::Esc
}

/// The two logical phases of the control loop.
#[derive(Clone, Copy, PartialEq, Eq, Structural, Debug)]
pub enum LoopPhase {
    Running,
    Terminating,
}

/// What the host must do after one control tick.
#[derive(Debug)]
pub enum ControlAction {
    /// The pause key was pressed and the shared intent has been toggled.
    ToggleApplied,
    /// No command key was pressed: print this progress line.
    Show(String),
    /// No command key was pressed and the total duration is unknown:
    /// nothing to draw this tick.
    SkipRender,
    /// The quit key was pressed: leave the loop and tear the session down.
    Quit,
}

/// The foreground loop's phase machine.
pub struct ControlLoop {
    phase: LoopPhase,
}

impl ControlLoop {
    /// Whether the loop is still in its running phase.
    pub closed spec fn is_running(&self) -> bool {
        self.phase is Running
    }

    /// A fresh loop, running; entered once terminal setup succeeded.
    pub fn new() -> (c: Self)
        ensures
            c.is_running(),
    {
        ControlLoop { phase: LoopPhase::Running }
    }

    /// Whether the loop is still running, as an executable test.
    pub fn running(&self) -> (r: bool)
        ensures
            r == self.is_running(),
    {
        match self.phase {
            LoopPhase::Running => true,
            LoopPhase::Terminating => false,
        }
    }

    /// One tick: `key` is the pending key event, if any, and `snap` the
    /// progress snapshot last published by the worker.  The pause key
    /// toggles the shared intent; the quit key — and nothing else — moves
    /// the loop to its terminating phase; every other tick renders the
    /// snapshot, unless its total duration is unknown.
    pub fn step(&mut self, key: Option<KeyPress>, state: &mut PlaybackState, snap:
        ProgressSnapshot) -> (a: ControlAction)
        requires
            old(self).is_running(),
        ensures
            final (self).is_running() <==> !(key matches Some(k) && is_quit_key(k)),
            final (state).spec_paused() == (if key matches Some(k) && is_pause_key(k) {
                !old(state).spec_paused()
            } else {
                old(state).spec_paused()
            }),
            (match a {
                ControlAction::Quit => key matches Some(k) && is_quit_key(k),
                ControlAction::ToggleApplied => key matches Some(k) && is_pause_key(k),
                ControlAction::Show(line) => !(key matches Some(k) && (is_pause_key(k)
                    || is_quit_key(k))) && snap.total > 0 && line@ == progress_line(
                    if snap.elapsed <= snap.total {
                        snap.elapsed as int
                    } else {
                        snap.total as int
                    },
                    snap.total as int,
                ),
                ControlAction::SkipRender => !(key matches Some(k) && (is_pause_key(k)
                    || is_quit_key(k))) && snap.total == 0,
            }),
    {
        if let Some(KeyPress::Char(c)) = key {
            if c == PAUSE_KEY {
                state.toggle();
                return ControlAction::ToggleApplied;
            }
        }
        if let Some(KeyPress::Esc) = key {
            self.phase = LoopPhase::Terminating;
            return ControlAction::Quit;
        }
        match render_progress(snap) {
            Some(line) => ControlAction::Show(line),
            None => ControlAction::SkipRender,
        }
    }
}

} // verus!
