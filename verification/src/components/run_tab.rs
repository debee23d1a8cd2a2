//! The run tab of the workflow view: pausing and stopping the run, and the
//! history of its energy ratio, whose points (floating point) the caller
//! computes.

use vstd::prelude::*;

use crate::action::Action;
use crate::history::{capped_push, History};
use crate::keys::{KeyCode, KeyEvent};

verus! {

/// The most energy points kept.
pub const MAX_HISTORY: usize = 500;

/// The run tab's state: whether the run is paused, and the latest energy
/// points, of type `P`.
pub struct RunTab<P> {
    pub paused: bool,
    pub energy_history: History<P>,
}

impl<P> RunTab<P> {
    /// The history's invariant, and its capacity.
    pub open spec fn wf(&self) -> bool {
        self.energy_history.wf() && self.energy_history.capacity() == MAX_HISTORY
    }

    /// Not paused, no energy points.
    pub fn new() -> (t: RunTab<P>)
        ensures
            t.wf(),
            !t.paused,
            t.energy_history.entries() == Seq::<P>::empty(),
    {
        RunTab { paused: false, energy_history: History::new(MAX_HISTORY) }
    }

    /// `p` or Space resume a paused run and pause a running one; `s` stops it.
    pub fn handle_key_event(&self, key: KeyEvent) -> (a: Option<Action>)
        ensures
            a == (if key.code == KeyCode::Char('p') || key.code == KeyCode::Char(' ') {
                Some(if self.paused { Action::SimResume } else { Action::SimPause })
            } else if key.code == KeyCode::Char('s') {
                Some(Action::SimStop)
            } else {
                None
            }),
    {
        if key.code == KeyCode::Char('p') || key.code == KeyCode::Char(' ') {
            Some(if self.paused { Action::SimResume } else { Action::SimPause })
        } else if key.code == KeyCode::Char('s') {
            Some(Action::SimStop)
        } else {
            None
        }
    }

    /// Follows an action. An update adds its energy point, when the caller
    /// computed one (the run has a non-zero initial energy); pausing sets
    /// the paused flag, resuming and stopping clear it.
    pub fn update(&mut self, action: &Action, energy_point: Option<P>)
        requires
            old(self).wf(),
        ensures
            final(self).wf(),
            final(self).paused == (match *action {
                Action::SimPause => true,
                Action::SimResume => false,
                Action::SimStop => false,
                _ => old(self).paused,
            }),
            final(self).energy_history.entries() == (match (*action, energy_point) {
                (Action::SimUpdate(_), Some(pt)) => capped_push(old(self).energy_history.entries(), pt, MAX_HISTORY as nat),
                _ => old(self).energy_history.entries(),
            }),
    {
        match action {
            Action::SimUpdate(_) => {
                match energy_point {
                    Some(pt) => self.energy_history.push(pt),
                    None => {},
                }
            },
            Action::SimPause => self.paused = true,
            Action::SimResume => self.paused = false,
            Action::SimStop => self.paused = false,
            _ => {},
        }
    }
}

} // verus!
