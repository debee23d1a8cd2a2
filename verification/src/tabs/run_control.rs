//! The Run Control tab's controls and message log.

use std::collections::VecDeque;

use vstd::prelude::*;

use crate::action::{Action, SimStatus};
use crate::history::{capped_push, capped_push_all};
use crate::keys::{KeyCode, KeyEvent};
use crate::tabs::step_progress::{build_done_after, detect_integrator, detected, is_build, Integrator, StepPhase};

verus! {

/// The most messages the log keeps; older ones are dropped first.
pub const MAX_LOG: usize = 200;

#[derive(Debug, Clone, Copy, PartialEq, Eq, Structural)]
pub enum Level {
    Info,
    Warn,
    Error,
}

/// Which messages the log shows.
#[derive(Debug, Clone, Copy, PartialEq, Eq, Structural)]
pub enum LogFilter {
    All,
    WarnPlus,
    ErrorOnly,
}

/// Whether a message of a level passes a filter.
pub open spec fn passes(f: LogFilter, l: Level) -> bool {
    match f {
        LogFilter::All => true,
        LogFilter::WarnPlus => l == Level::Warn || l == Level::Error,
        LogFilter::ErrorOnly => l == Level::Error,
    }
}

/// The Run Control tab's log of messages, its filter, whether it shows the
/// simulation as paused, the integrator that the reported phases revealed,
/// and whether building the simulation is over.
pub struct RunControlTab {
    log_stream: VecDeque<(Level, String)>,
    log_filter: LogFilter,
    paused: bool,
    integrator: Integrator,
    build_complete: bool,
}

/// What the Run Control tab holds.
pub struct RunControlView {
    pub log: Seq<(Level, Seq<char>)>,
    pub filter: LogFilter,
    pub paused: bool,
    pub integrator: Integrator,
    pub build_complete: bool,
}

/// The views of log entries.
pub open spec fn entries_view(s: Seq<(Level, String)>) -> Seq<(Level, Seq<char>)> {
    s.map_values(|e: (Level, String)| (e.0, e.1@))
}

impl View for RunControlTab {
    type V = RunControlView;

    closed spec fn view(&self) -> RunControlView {
        RunControlView {
            log: entries_view(self.log_stream@),
            filter: self.log_filter,
            paused: self.paused,
            integrator: self.integrator,
            build_complete: self.build_complete,
        }
    }
}

impl RunControlView {
    /// The log holds at most `MAX_LOG` messages.
    pub open spec fn wf(self) -> bool {
        self.log.len() <= MAX_LOG
    }
}

/// The log after a message: the oldest is dropped when the log is full.
pub open spec fn log_pushed(log: Seq<(Level, Seq<char>)>, e: (Level, Seq<char>)) -> Seq<(Level, Seq<char>)> {
    capped_push(log, e, MAX_LOG as nat)
}

/// The log after several messages, pushed in order.
pub open spec fn log_pushed_all(log: Seq<(Level, Seq<char>)>, es: Seq<(Level, Seq<char>)>) -> Seq<(Level, Seq<char>)> {
    capped_push_all(log, es, MAX_LOG as nat)
}

/// What an update from the simulation logs: its messages, then the reason
/// the run ended when it did.
pub open spec fn update_entries(st: SimStatus) -> Seq<(Level, Seq<char>)> {
    let msgs = st.log_messages@.map_values(|m: String| (Level::Info, m@));
    match st.exit_reason {
        Some(r) => msgs.push((Level::Info, "Exit: "@ + r@)),
        None => msgs,
    }
}

/// The tab after a key and the action it answers with: `p` or Space pause or
/// resume, `s` stops, `r` restarts, `1`, `2`, `3` pick the log filter.
pub open spec fn run_key_step(v: RunControlView, code: KeyCode) -> (RunControlView, Option<Action>) {
    match code {
        KeyCode::Char(c) => if c == 'p' || c == ' ' {
            (v, Some(if v.paused { Action::SimResume } else { Action::SimPause }))
        } else if c == 's' {
            (v, Some(Action::SimStop))
        } else if c == 'r' {
            (v, Some(Action::SimRestart))
        } else if c == '1' {
            (RunControlView { filter: LogFilter::All, ..v }, None)
        } else if c == '2' {
            (RunControlView { filter: LogFilter::WarnPlus, ..v }, None)
        } else if c == '3' {
            (RunControlView { filter: LogFilter::ErrorOnly, ..v }, None)
        } else {
            (v, None)
        },
        _ => (v, None),
    }
}

/// The tab after an action: an update logs what the simulation reported;
/// pausing, resuming, stopping and starting set the paused flag and log what
/// happened, and starting over makes the run build again; a status message
/// is logged.
pub open spec fn run_action_step(v: RunControlView, a: Action) -> RunControlView {
    match a {
        Action::SimUpdate(st) => RunControlView { log: log_pushed_all(v.log, update_entries(st)), ..v },
        Action::SimPause => RunControlView { paused: true, log: log_pushed(v.log, (Level::Info, "Simulation paused"@)), ..v },
        Action::SimResume => RunControlView { paused: false, log: log_pushed(v.log, (Level::Info, "Simulation resumed"@)), ..v },
        Action::SimStop => RunControlView { paused: false, log: log_pushed(v.log, (Level::Warn, "Simulation stopped by user"@)), ..v },
        Action::SimStart => RunControlView {
            paused: false,
            build_complete: false,
            log: log_pushed(v.log, (Level::Info, "Starting simulation…"@)),
            ..v
        },
        Action::SimRestart => RunControlView {
            paused: false,
            build_complete: false,
            log: log_pushed(v.log, (Level::Info, "Restarting simulation…"@)),
            ..v
        },
        Action::StatusMsg(m) => RunControlView { log: log_pushed(v.log, (Level::Info, m@)), ..v },
        _ => v,
    }
}

/// The messages shown in a log area `height` lines tall: the latest ones that
/// pass the filter, oldest first.
pub open spec fn visible_log(v: RunControlView, height: nat) -> Seq<(Level, Seq<char>)> {
    let f = v.log.filter(|e: (Level, Seq<char>)| passes(v.filter, e.0));
    if f.len() <= height {
        f
    } else {
        f.subrange(f.len() - height, f.len() as int)
    }
}

/// The hint of the filter keys with the chosen filter ticked.
pub open spec fn filter_hint_text(f: LogFilter) -> Seq<char> {
    match f {
        LogFilter::All => "[1]All [2]Warn+ [3]Error"@,
        LogFilter::WarnPlus => "[1]All [2]Warn+✓ [3]Error"@,
        LogFilter::ErrorOnly => "[1]All [2]Warn+ [3]Error✓"@,
    }
}

/// A new tab: an empty log showing everything, not paused, guessing the
/// Strang integrator, with building not over.
pub open spec fn initial_run_control() -> RunControlView {
    RunControlView {
        log: Seq::empty(),
        filter: LogFilter::All,
        paused: false,
        integrator: Integrator::Strang,
        build_complete: false,
    }
}

/// The tab after the simulation reported a phase: see `detected` and
/// `build_done_after`.
pub open spec fn observe_step(v: RunControlView, p: StepPhase, sub_step_total: u8) -> RunControlView {
    RunControlView {
        integrator: detected(v.integrator, p, sub_step_total),
        build_complete: build_done_after(v.build_complete, p),
        ..v
    }
}

impl RunControlTab {
    /// Takes note of the phase that the simulation reports, with the number of
    /// sub-steps of its step: see `observe_step`.
    pub fn observe_phase(&mut self, phase: StepPhase, sub_step_total: u8)
        ensures
            final(self)@ == observe_step(old(self)@, phase, sub_step_total),
    {
        self.integrator = detect_integrator(self.integrator, phase, sub_step_total);
        if !phase.is_build() && phase != StepPhase::Idle {
            self.build_complete = true;
        }
    }

    /// The log panel's hint of the filter keys, with the chosen filter ticked.
    pub fn filter_hint(&self) -> (s: &'static str)
        ensures
            s@ == filter_hint_text(self@.filter),
    {
        match self.log_filter {
            LogFilter::All => "[1]All [2]Warn+ [3]Error",
            LogFilter::WarnPlus => "[1]All [2]Warn+✓ [3]Error",
            LogFilter::ErrorOnly => "[1]All [2]Warn+ [3]Error✓",
        }
    }

    /// The integrator that the reported phases revealed.
    pub fn integrator(&self) -> (i: Integrator)
        ensures
            i == self@.integrator,
    {
        self.integrator
    }

    /// Whether building the simulation is over.
    pub fn build_complete(&self) -> (b: bool)
        ensures
            b == self@.build_complete,
    {
        self.build_complete
    }
    /// An empty log showing everything, not paused.
    pub fn new() -> (t: RunControlTab)
        ensures
            t@ == initial_run_control(),
    {
        let t = RunControlTab {
            log_stream: VecDeque::new(),
            log_filter: LogFilter::All,
            paused: false,
            integrator: Integrator::Strang,
            build_complete: false,
        };
        assert(t@.log =~= Seq::<(Level, Seq<char>)>::empty());
        t
    }

    /// Whether the simulation shows as paused.
    pub fn paused(&self) -> (b: bool)
        ensures
            b == self@.paused,
    {
        self.paused
    }

    /// The log filter.
    pub fn log_filter(&self) -> (f: LogFilter)
        ensures
            f == self@.filter,
    {
        self.log_filter
    }

    /// Appends a message, dropping the oldest when the log is full.
    pub fn push_log(&mut self, level: Level, msg: String)
        requires
            old(self)@.wf(),
        ensures
            final(self)@.wf(),
            final(self)@ == (RunControlView { log: log_pushed(old(self)@.log, (level, msg@)), ..old(self)@ }),
    {
        let ghost before = self.log_stream@;
        if self.log_stream.len() >= MAX_LOG {
            self.log_stream.pop_front();
            assert(entries_view(self.log_stream@) =~= entries_view(before).drop_first());
        }
        let ghost mid = self.log_stream@;
        self.log_stream.push_back((level, msg));
        assert(entries_view(self.log_stream@) =~= entries_view(mid).push((level, msg@)));
    }

    /// Logs what an update from the simulation reported: see `update_entries`.
    fn log_update(&mut self, st: &SimStatus)
        requires
            old(self)@.wf(),
        ensures
            final(self)@.wf(),
            final(self)@ == (RunControlView { log: log_pushed_all(old(self)@.log, update_entries(*st)), ..old(self)@ }),
    {
        let ghost log0 = self@.log;
        let ghost msgs = st.log_messages@.map_values(|m: String| (Level::Info, m@));
        let n = st.log_messages.len();
        let mut i: usize = 0;
        while i < n
            invariant
                n == st.log_messages@.len(),
                msgs == st.log_messages@.map_values(|m: String| (Level::Info, m@)),
                i <= n,
                self@.wf(),
                self@ == (RunControlView { log: log_pushed_all(log0, msgs.take(i as int)), ..old(self)@ }),
            decreases n - i,
        {
            proof {
                assert(msgs.take(i as int + 1).drop_last() =~= msgs.take(i as int));
                assert(msgs.take(i as int + 1).last() == (Level::Info, st.log_messages@[i as int]@));
            }
            self.push_log(Level::Info, st.log_messages[i].clone());
            i = i + 1;
        }
        assert(msgs.take(n as int) =~= msgs);
        match &st.exit_reason {
            Some(r) => {
                let line = String::from_str("Exit: ").concat(r.as_str());
                self.push_log(Level::Info, line);
                proof {
                    let es = msgs.push((Level::Info, "Exit: "@ + r@));
                    assert(es.drop_last() =~= msgs);
                }
            },
            None => {},
        }
    }

    /// Handles a key: see `run_key_step`.
    pub fn handle_key_event(&mut self, key: KeyEvent) -> (a: Option<Action>)
        ensures
            (final(self)@, a) == run_key_step(old(self)@, key.code),
    {
        match key.code {
            KeyCode::Char(c) => {
                if c == 'p' || c == ' ' {
                    Some(if self.paused { Action::SimResume } else { Action::SimPause })
                } else if c == 's' {
                    Some(Action::SimStop)
                } else if c == 'r' {
                    Some(Action::SimRestart)
                } else if c == '1' {
                    self.log_filter = LogFilter::All;
                    None
                } else if c == '2' {
                    self.log_filter = LogFilter::WarnPlus;
                    None
                } else if c == '3' {
                    self.log_filter = LogFilter::ErrorOnly;
                    None
                } else {
                    None
                }
            },
            _ => None,
        }
    }

    /// Follows an action: see `run_action_step`.
    pub fn update(&mut self, action: &Action)
        requires
            old(self)@.wf(),
        ensures
            final(self)@.wf(),
            final(self)@ == run_action_step(old(self)@, *action),
    {
        match action {
            Action::SimUpdate(st) => {
                self.log_update(st);
            },
            Action::SimPause => {
                self.paused = true;
                self.push_log(Level::Info, String::from_str("Simulation paused"));
            },
            Action::SimResume => {
                self.paused = false;
                self.push_log(Level::Info, String::from_str("Simulation resumed"));
            },
            Action::SimStop => {
                self.paused = false;
                self.push_log(Level::Warn, String::from_str("Simulation stopped by user"));
            },
            Action::SimStart => {
                self.paused = false;
                self.build_complete = false;
                self.push_log(Level::Info, String::from_str("Starting simulation…"));
            },
            Action::SimRestart => {
                self.paused = false;
                self.build_complete = false;
                self.push_log(Level::Info, String::from_str("Restarting simulation…"));
            },
            Action::StatusMsg(msg) => {
                self.push_log(Level::Info, msg.clone());
            },
            _ => {},
        }
    }

    /// The messages to show in a log area `height` lines tall: see `visible_log`.
    pub fn visible_log(&self, height: usize) -> (v: Vec<(Level, String)>)
        ensures
            entries_view(v@) == visible_log(self@, height as nat),
    {
        let ghost log = entries_view(self.log_stream@);
        let ghost pred = |e: (Level, Seq<char>)| passes(self.log_filter, e.0);
        let mut filtered: Vec<(Level, String)> = Vec::new();
        let n = self.log_stream.len();
        let mut i: usize = 0;
        while i < n
            invariant
                n == self.log_stream@.len(),
                log == entries_view(self.log_stream@),
                pred == (|e: (Level, Seq<char>)| passes(self.log_filter, e.0)),
                i <= n,
                entries_view(filtered@) == log.take(i as int).filter(pred),
            decreases n - i,
        {
            let e = &self.log_stream[i];
            let keep = match self.log_filter {
                LogFilter::All => true,
                LogFilter::WarnPlus => e.0 == Level::Warn || e.0 == Level::Error,
                LogFilter::ErrorOnly => e.0 == Level::Error,
            };
            let ghost before = entries_view(filtered@);
            proof {
                assert(log.take(i as int + 1).drop_last() =~= log.take(i as int));
                assert(log.take(i as int + 1).last() == log[i as int]);
                reveal(Seq::filter);
            }
            if keep {
                filtered.push((e.0, e.1.clone()));
                assert(entries_view(filtered@) =~= before.push(log[i as int]));
            } else {
                assert(entries_view(filtered@) =~= before);
            }
            i = i + 1;
        }
        assert(log.take(n as int) =~= log);
        let fl = filtered.len();
        if fl <= height {
            return filtered;
        }
        let start = fl - height;
        let mut out: Vec<(Level, String)> = Vec::new();
        let mut k: usize = start;
        while k < fl
            invariant
                fl == filtered@.len(),
                start <= k <= fl,
                entries_view(out@) == entries_view(filtered@).subrange(start as int, k as int),
            decreases fl - k,
        {
            let ghost before = entries_view(out@);
            let item = (filtered[k].0, filtered[k].1.clone());
            assert((item.0, item.1@) == entries_view(filtered@)[k as int]);
            out.push(item);
            assert(entries_view(out@) =~= before.push(entries_view(filtered@)[k as int]));
            assert(entries_view(out@) =~= entries_view(filtered@).subrange(start as int, k as int + 1));
            k = k + 1;
        }
        out
    }
}

impl Default for RunControlTab {
    fn default() -> (t: RunControlTab)
        ensures
            t@ == initial_run_control(),
    {
        RunControlTab::new()
    }
}

/// Once building is seen to be over it stays over, whatever phase comes
/// next, until the run is started or restarted, which makes it build again.
pub proof fn lemma_build_latch(v: RunControlView, p: StepPhase, sub_step_total: u8)
    ensures
        v.build_complete ==> observe_step(v, p, sub_step_total).build_complete,
        !run_action_step(v, Action::SimStart).build_complete,
        !run_action_step(v, Action::SimRestart).build_complete,
{
}

/// The integrator guessed from the advance outlives it: a build phase, the
/// phases after the advance, an idle or an unlisted phase leave the guess
/// as it was.
pub proof fn lemma_guess_outlives_advance(v: RunControlView, p: StepPhase, sub_step_total: u8)
    requires
        is_build(p) || p == StepPhase::Idle || p == StepPhase::LoMaC || p == StepPhase::PostDensity
            || p == StepPhase::Diagnostics || p == StepPhase::StepComplete || p == StepPhase::Other,
    ensures
        observe_step(v, p, sub_step_total).integrator == v.integrator,
{
}

/// The log never holds more than `MAX_LOG` messages, and a pushed message is
/// always the newest one kept.
pub proof fn lemma_log_bounded(log: Seq<(Level, Seq<char>)>, e: (Level, Seq<char>))
    requires
        log.len() <= MAX_LOG,
    ensures
        log_pushed(log, e).len() <= MAX_LOG,
        log_pushed(log, e).last() == e,
{
}

} // verus!
