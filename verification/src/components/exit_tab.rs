//! The exit tab of the workflow view: when the last run started and ended,
//! as instants of the caller's clock, of type `I`, and what its last update
//! reported about its end.

use vstd::prelude::*;

use crate::action::Action;
use crate::text::opt_chars;

verus! {

/// When the last run started and when it ended, and, once an update has
/// arrived, the reason the run ended that the last update gave (none while
/// it runs).
pub struct ExitTab<I> {
    pub start_time: Option<I>,
    pub end_time: Option<I>,
    pub reported: Option<Option<String>>,
}

/// What the last update reported, with the reason as a text.
pub open spec fn reported_view(r: Option<Option<String>>) -> Option<Option<Seq<char>>> {
    match r {
        Some(e) => Some(opt_chars(e)),
        None => None,
    }
}

/// The exit tab's status line: no run seen, a run under way, or a run that
/// ended for the reason given.
#[derive(Debug, Clone, PartialEq, Eq)]
pub enum ExitStatus {
    NotStarted,
    Running,
    Exited(String),
}

/// The status line as a view.
pub enum ExitStatusView {
    NotStarted,
    Running,
    Exited(Seq<char>),
}

impl View for ExitStatus {
    type V = ExitStatusView;

    open spec fn view(&self) -> ExitStatusView {
        match self {
            ExitStatus::NotStarted => ExitStatusView::NotStarted,
            ExitStatus::Running => ExitStatusView::Running,
            ExitStatus::Exited(r) => ExitStatusView::Exited(r@),
        }
    }
}

/// The status line for what the last update reported: before any update,
/// not started; after one without an end, running; after one with an end,
/// exited for its reason.
pub open spec fn exit_status(r: Option<Option<Seq<char>>>) -> ExitStatusView {
    match r {
        None => ExitStatusView::NotStarted,
        Some(None) => ExitStatusView::Running,
        Some(Some(reason)) => ExitStatusView::Exited(reason),
    }
}

impl<I> ExitTab<I> {
    /// No run seen.
    pub fn new() -> (t: ExitTab<I>)
        ensures
            t.start_time is None,
            t.end_time is None,
            t.reported is None,
    {
        ExitTab { start_time: None, end_time: None, reported: None }
    }

    /// The status line: see `exit_status`.
    pub fn status(&self) -> (s: ExitStatus)
        ensures
            s@ == exit_status(reported_view(self.reported)),
    {
        match &self.reported {
            None => ExitStatus::NotStarted,
            Some(None) => ExitStatus::Running,
            Some(Some(reason)) => ExitStatus::Exited(reason.clone()),
        }
    }

    /// Follows an action, `now` being the time it arrived: a start records
    /// the start and forgets the end; a stop, or an update that reports the
    /// end, records the end; an update is kept as the last one reported.
    pub fn update(&mut self, action: &Action, now: I)
        ensures
            (final(self).start_time, final(self).end_time) == (match *action {
                Action::SimStart => (Some(now), None),
                Action::SimUpdate(st) => if st.exited() {
                    (old(self).start_time, Some(now))
                } else {
                    (old(self).start_time, old(self).end_time)
                },
                Action::SimStop => (old(self).start_time, Some(now)),
                _ => (old(self).start_time, old(self).end_time),
            }),
            reported_view(final(self).reported) == (match *action {
                Action::SimUpdate(st) => Some(opt_chars(st.exit_reason)),
                _ => reported_view(old(self).reported),
            }),
    {
        match action {
            Action::SimStart => {
                self.start_time = Some(now);
                self.end_time = None;
            },
            Action::SimUpdate(st) => {
                if st.has_exited() {
                    self.end_time = Some(now);
                }
                self.reported = Some(
                    match &st.exit_reason {
                        Some(r) => Some(r.clone()),
                        None => None,
                    },
                );
            },
            Action::SimStop => {
                self.end_time = Some(now);
            },
            _ => {},
        }
    }
}

} // verus!
