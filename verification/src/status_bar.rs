//! The run state that the status bar shows, and when it refreshes its
//! memory reading.

use vstd::prelude::*;

use crate::action::SimStatus;
use crate::text::{decimal, decimal_string};

verus! {

/// The simulation's state as the status bar shows it.
#[derive(Clone, Copy, Debug, PartialEq, Eq, Structural)]
pub enum RunState {
    Idle,
    Paused,
    Done,
    Running,
}

/// The status bar's record of the run: whether a simulation runs, is paused
/// or has finished, the last step seen, the render-tick counter that paces
/// memory readings, the scrub position and the configuration's name.
pub struct StatusBar {
    config_name: String,
    sim_running: bool,
    sim_paused: bool,
    sim_done: bool,
    last_step: u64,
    rss_tick: u32,
    scrub_position: Option<(usize, usize)>,
}

/// What a status bar records.
pub struct StatusBarView {
    pub config_name: Seq<char>,
    pub sim_running: bool,
    pub sim_paused: bool,
    pub sim_done: bool,
    pub last_step: u64,
    pub rss_tick: u32,
    pub scrub_position: Option<(usize, usize)>,
}

impl View for StatusBar {
    type V = StatusBarView;

    closed spec fn view(&self) -> StatusBarView {
        StatusBarView {
            config_name: self.config_name@,
            sim_running: self.sim_running,
            sim_paused: self.sim_paused,
            sim_done: self.sim_done,
            last_step: self.last_step,
            rss_tick: self.rss_tick,
            scrub_position: self.scrub_position,
        }
    }
}

/// What an update of the simulation asks of the status bar beyond its
/// record: note the time of a new step, and read the memory use again.
#[derive(Clone, Copy, Debug, PartialEq, Eq, Structural)]
pub struct StepNotice {
    pub new_step: bool,
    pub refresh_rss: bool,
}

/// The run state shown for a record.
pub open spec fn run_state_of(v: StatusBarView) -> RunState {
    if !v.sim_running && !v.sim_done {
        RunState::Idle
    } else if v.sim_paused {
        RunState::Paused
    } else if v.sim_done {
        RunState::Done
    } else {
        RunState::Running
    }
}

/// A simulation is active while it runs, is not paused and has not finished.
pub open spec fn active(v: StatusBarView) -> bool {
    v.sim_running && !v.sim_paused && !v.sim_done
}

/// The record after a simulation starts.
pub open spec fn started(v: StatusBarView) -> StatusBarView {
    StatusBarView { sim_running: true, sim_paused: false, sim_done: false, ..v }
}

/// The record after a pause.
pub open spec fn paused(v: StatusBarView) -> StatusBarView {
    StatusBarView { sim_paused: true, ..v }
}

/// The record after a resume.
pub open spec fn resumed(v: StatusBarView) -> StatusBarView {
    StatusBarView { sim_paused: false, ..v }
}

/// The record after a stop.
pub open spec fn stopped(v: StatusBarView) -> StatusBarView {
    StatusBarView { sim_running: false, sim_done: true, ..v }
}

/// The record after an update from the simulation.
pub open spec fn updated(v: StatusBarView, s: SimStatus) -> StatusBarView {
    let v1 = StatusBarView { last_step: s.step, ..v };
    if s.exited() {
        StatusBarView { sim_running: false, sim_done: true, ..v1 }
    } else {
        v1
    }
}

impl StatusBar {
    /// An idle status bar for the configuration called "—".
    pub fn new() -> (s: StatusBar)
        ensures
            s@ == (StatusBarView {
                config_name: "—"@,
                sim_running: false,
                sim_paused: false,
                sim_done: false,
                last_step: 0,
                rss_tick: 0,
                scrub_position: None,
            }),
    {
        StatusBar {
            config_name: String::from_str("—"),
            sim_running: false,
            sim_paused: false,
            sim_done: false,
            last_step: 0,
            rss_tick: 0,
            scrub_position: None,
        }
    }

    /// Counts a render tick; every thirtieth tick the memory reading is due.
    /// The counter wraps around after `u32::MAX`.
    pub fn tick_rss(&mut self) -> (refresh: bool)
        ensures
            final(self)@ == (StatusBarView { rss_tick: old(self)@.rss_tick.wrapping_add(1), ..old(self)@ }),
            refresh == (final(self)@.rss_tick % 30 == 0),
    {
        self.rss_tick = self.rss_tick.wrapping_add(1);
        self.rss_tick % 30 == 0
    }

    /// Records the scrub position: `None` when live, else (index, total).
    pub fn set_scrub_position(&mut self, pos: Option<(usize, usize)>)
        ensures
            final(self)@ == (StatusBarView { scrub_position: pos, ..old(self)@ }),
    {
        self.scrub_position = pos;
    }

    /// Records the configuration's name.
    pub fn set_config_name(&mut self, name: String)
        ensures
            final(self)@ == (StatusBarView { config_name: name@, ..old(self)@ }),
    {
        self.config_name = name;
    }

    /// The configuration's name.
    pub fn config_name(&self) -> (s: &str)
        ensures
            s@ == self@.config_name,
    {
        self.config_name.as_str()
    }

    /// The scrub position.
    pub fn scrub_position(&self) -> (p: Option<(usize, usize)>)
        ensures
            p == self@.scrub_position,
    {
        self.scrub_position
    }

    pub fn on_sim_start(&mut self)
        ensures
            final(self)@ == started(old(self)@),
    {
        self.sim_running = true;
        self.sim_paused = false;
        self.sim_done = false;
    }

    pub fn on_sim_pause(&mut self)
        ensures
            final(self)@ == paused(old(self)@),
    {
        self.sim_paused = true;
    }

    pub fn on_sim_resume(&mut self)
        ensures
            final(self)@ == resumed(old(self)@),
    {
        self.sim_paused = false;
    }

    pub fn on_sim_stop(&mut self)
        ensures
            final(self)@ == stopped(old(self)@),
    {
        self.sim_running = false;
        self.sim_done = true;
    }

    /// Records an update from the simulation. A new step is to be timed; the
    /// memory reading is due on every tenth step; a run that ended is done.
    pub fn on_state_update(&mut self, s: &SimStatus) -> (n: StepNotice)
        ensures
            final(self)@ == updated(old(self)@, *s),
            n.new_step == (s.step != old(self)@.last_step),
            n.refresh_rss == (s.step % 10 == 0),
    {
        let new_step = s.step != self.last_step;
        if new_step {
            self.last_step = s.step;
        }
        if s.has_exited() {
            self.sim_running = false;
            self.sim_done = true;
        }
        StepNotice { new_step, refresh_rss: s.step % 10 == 0 }
    }

    pub fn is_sim_active(&self) -> (b: bool)
        ensures
            b == active(self@),
    {
        self.sim_running && !self.sim_paused && !self.sim_done
    }

    /// The run state shown in the bar.
    pub fn run_state(&self) -> (r: RunState)
        ensures
            r == run_state_of(self@),
    {
        if !self.sim_running && !self.sim_done {
            RunState::Idle
        } else if self.sim_paused {
            RunState::Paused
        } else if self.sim_done {
            RunState::Done
        } else {
            RunState::Running
        }
    }
}

/// The label of a run state in the bar.
pub open spec fn run_state_label_spec(r: RunState) -> Seq<char> {
    match r {
        RunState::Idle => " ⏹ Idle"@,
        RunState::Paused => " ⏸ Paused"@,
        RunState::Done => " ■ Done"@,
        RunState::Running => " ▶ Running"@,
    }
}

/// The label of a run state in the bar: see `run_state_label_spec`.
pub fn run_state_label(r: RunState) -> (s: &'static str)
    ensures
        s@ == run_state_label_spec(r),
{
    match r {
        RunState::Idle => " ⏹ Idle",
        RunState::Paused => " ⏸ Paused",
        RunState::Done => " ■ Done",
        RunState::Running => " ▶ Running",
    }
}

/// The scrub notice for a position `idx` of `total` snapshots, counting
/// from one.
pub open spec fn scrub_label_spec(idx: nat, total: nat) -> Seq<char> {
    " SCRUB "@ + decimal(idx + 1) + "/"@ + decimal(total) + "  [Backspace] live"@
}

impl StatusBar {
    /// Whether the bar shows the run's progress: once a run started, and
    /// after it finished.
    pub fn shows_progress(&self) -> (b: bool)
        ensures
            b == (self@.sim_running || self@.sim_done),
    {
        self.sim_running || self.sim_done
    }

    /// The scrub notice while scrubbing (`None` when live): see
    /// `scrub_label_spec`.
    pub fn scrub_label(&self) -> (s: Option<String>)
        ensures
            match self@.scrub_position {
                Some((i, n)) => s is Some && s->0@ == scrub_label_spec(i as nat, n as nat),
                None => s is None,
            },
    {
        match self.scrub_position {
            Some((i, n)) => {
                let s = String::from_str(" SCRUB ")
                    .concat(decimal_string(i as u128 + 1).as_str())
                    .concat("/")
                    .concat(decimal_string(n as u128).as_str())
                    .concat("  [Backspace] live");
                Some(s)
            },
            None => None,
        }
    }
}

/// A simulation that was just started is active and shown as running.
pub proof fn lemma_started_is_active(v: StatusBarView)
    ensures
        active(started(v)),
        run_state_of(started(v)) == RunState::Running,
{
}

/// Pausing and resuming a running simulation makes it active again.
pub proof fn lemma_pause_resume(v: StatusBarView)
    requires
        active(v),
    ensures
        !active(paused(v)),
        active(resumed(paused(v))),
        run_state_of(paused(v)) == RunState::Paused,
{
}

/// After a stop, or an update that reports the end, nothing is active and the
/// run shows as done unless it is paused.
pub proof fn lemma_finished_not_active(v: StatusBarView, s: SimStatus)
    requires
        s.exited(),
    ensures
        !active(stopped(v)),
        !active(updated(v, s)),
        !v.sim_paused ==> run_state_of(stopped(v)) == RunState::Done,
{
}

/// A call that changes the status bar's record of the run.
pub enum StatusEvent {
    Start,
    Pause,
    Resume,
    Stop,
    Update(SimStatus),
}

/// The record after one call: see `started`, `paused`, `resumed`, `stopped`
/// and `updated`.
pub open spec fn status_after(v: StatusBarView, e: StatusEvent) -> StatusBarView {
    match e {
        StatusEvent::Start => started(v),
        StatusEvent::Pause => paused(v),
        StatusEvent::Resume => resumed(v),
        StatusEvent::Stop => stopped(v),
        StatusEvent::Update(s) => updated(v, s),
    }
}

/// The record after a sequence of calls, in order.
pub open spec fn status_after_all(v: StatusBarView, evs: Seq<StatusEvent>) -> StatusBarView
    decreases evs.len(),
{
    if evs.len() == 0 {
        v
    } else {
        status_after(status_after_all(v, evs.drop_last()), evs.last())
    }
}

/// Whether a call ends the run: a stop, or an update that reports the end.
pub open spec fn ends_run(e: StatusEvent) -> bool {
    match e {
        StatusEvent::Stop => true,
        StatusEvent::Update(s) => s.exited(),
        _ => false,
    }
}

/// Whether, in a sequence of calls, the last start comes after every call
/// that ends the run (and there is a start).
pub open spec fn run_live(evs: Seq<StatusEvent>) -> bool
    decreases evs.len(),
{
    if evs.len() == 0 {
        false
    } else if evs.last() is Start {
        true
    } else if ends_run(evs.last()) {
        false
    } else {
        run_live(evs.drop_last())
    }
}

/// Whether, in a sequence of calls, a pause is left unresumed: a pause comes
/// after the last start and after every resume.
pub open spec fn left_paused(evs: Seq<StatusEvent>) -> bool
    decreases evs.len(),
{
    if evs.len() == 0 {
        false
    } else if evs.last() is Pause {
        true
    } else if evs.last() is Start || evs.last() is Resume {
        false
    } else {
        left_paused(evs.drop_last())
    }
}

proof fn lemma_status_fields(v: StatusBarView, evs: Seq<StatusEvent>)
    requires
        !v.sim_running,
    ensures
        (status_after_all(v, evs).sim_running && !status_after_all(v, evs).sim_done) == run_live(evs),
        run_live(evs) ==> status_after_all(v, evs).sim_paused == left_paused(evs),
    decreases evs.len(),
{
    if evs.len() > 0 {
        lemma_status_fields(v, evs.drop_last());
    }
}

/// Over any sequence of calls on a bar that showed no run, a simulation is
/// active exactly when its last start came after every stop and every
/// update that reported the end, and no pause since that start is left
/// unresumed.
pub proof fn lemma_active_after_calls(v: StatusBarView, evs: Seq<StatusEvent>)
    requires
        !v.sim_running,
    ensures
        active(status_after_all(v, evs)) == (run_live(evs) && !left_paused(evs)),
{
    lemma_status_fields(v, evs);
}

/// The name of a run state.
pub open spec fn state_name(r: RunState) -> Seq<char> {
    match r {
        RunState::Idle => "Idle"@,
        RunState::Paused => "Paused"@,
        RunState::Done => "Done"@,
        RunState::Running => "Running"@,
    }
}

/// Each state's label ends with the state's name, and no two states share a
/// label.
pub proof fn lemma_labels_name_states(r: RunState, q: RunState)
    ensures
        run_state_label_spec(r).len() >= state_name(r).len(),
        run_state_label_spec(r).subrange(
            run_state_label_spec(r).len() - state_name(r).len(),
            run_state_label_spec(r).len() as int,
        ) == state_name(r),
        r != q ==> run_state_label_spec(r) != run_state_label_spec(q),
{
    reveal_strlit(" ⏹ Idle");
    reveal_strlit(" ⏸ Paused");
    reveal_strlit(" ■ Done");
    reveal_strlit(" ▶ Running");
    reveal_strlit("Idle");
    reveal_strlit("Paused");
    reveal_strlit("Done");
    reveal_strlit("Running");
    let l = run_state_label_spec(r);
    assert(l.subrange(l.len() - state_name(r).len(), l.len() as int) =~= state_name(r));
    if r != q {
        let m = run_state_label_spec(q);
        if l.len() == m.len() {
            assert(l[l.len() - 1] != m[m.len() - 1] || l[l.len() - 2] != m[m.len() - 2]);
        }
    }
}

} // verus!
