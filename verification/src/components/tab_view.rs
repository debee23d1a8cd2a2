use vstd::prelude::*;

use crate::action::Action;
use crate::components::exit_tab::{reported_view, ExitTab};
use crate::components::prep_tab::{initial_prep, prep_action_step, prep_key_step, PrepKey, PrepKeyView, PrepTab, PrepView};
use crate::components::run_tab::{RunTab, MAX_HISTORY};
use crate::history::capped_push;
use crate::keys::{KeyCode, KeyEvent};
use crate::text::opt_chars;

verus! {

/// The number of tabs of the workflow view.
pub const TAB_COUNT: usize = 3;

#[derive(Default, Clone, Copy, Debug, PartialEq, Eq, Structural)]
pub enum Tab {
    #[default]
    Prep,
    Run,
    Exit,
}

/// A tab's position.
pub open spec fn tab_index(t: Tab) -> nat {
    match t {
        Tab::Prep => 0,
        Tab::Run => 1,
        Tab::Exit => 2,
    }
}

/// The tab at position `n`, or the first when there is none there.
pub open spec fn tab_or_default(n: int) -> Tab {
    if n == 1 {
        Tab::Run
    } else if n == 2 {
        Tab::Exit
    } else {
        Tab::Prep
    }
}

/// The tab-bar title of a tab.
pub open spec fn tab_title(t: Tab) -> Seq<char> {
    match t {
        Tab::Prep => "F1 Prep"@,
        Tab::Run => "F2 Run"@,
        Tab::Exit => "F3 Exit"@,
    }
}

impl Tab {
    /// The tab at position `n`, if there is one.
    pub fn from_repr(n: usize) -> (t: Option<Tab>)
        ensures
            n < TAB_COUNT ==> t == Some(tab_or_default(n as int)),
            n >= TAB_COUNT ==> t is None,
    {
        match n {
            0 => Some(Tab::Prep),
            1 => Some(Tab::Run),
            2 => Some(Tab::Exit),
            _ => None,
        }
    }

    /// The tab's position.
    pub fn index(self) -> (i: usize)
        ensures
            i == tab_index(self),
    {
        match self {
            Tab::Prep => 0,
            Tab::Run => 1,
            Tab::Exit => 2,
        }
    }

    /// The tab-bar title, such as "F2 Run".
    pub fn to_string(&self) -> (s: String)
        ensures
            s@ == tab_title(*self),
    {
        let lit = match self {
            Tab::Prep => "F1 Prep",
            Tab::Run => "F2 Run",
            Tab::Exit => "F3 Exit",
        };
        String::from_str(lit)
    }
}

/// The workflow view: which tab is selected, and each tab's state.
pub struct TabView<P, I> {
    pub selected: Tab,
    pub prep: PrepTab,
    pub run: RunTab<P>,
    pub exit: ExitTab<I>,
}

/// The action a key asks for whichever tab is selected: F1 to F3 select a
/// tab, Tab and Shift+Tab move to the next and previous one.
pub open spec fn global_tab_key(code: KeyCode) -> Option<Action> {
    match code {
        KeyCode::F(n) => if 1 <= n <= 3 { Some(Action::SelectTab((n - 1) as usize)) } else { None },
        KeyCode::Tab => Some(Action::TabNext),
        KeyCode::BackTab => Some(Action::TabPrev),
        _ => None,
    }
}

/// The selected tab after an action.
pub open spec fn tab_after_action(t: Tab, a: Action) -> Tab {
    match a {
        Action::SelectTab(n) => tab_or_default(n as int),
        Action::TabNext => tab_or_default((tab_index(t) as int + 1) % 3),
        Action::TabPrev => tab_or_default((tab_index(t) as int + 2) % 3),
        _ => t,
    }
}

impl<P, I> TabView<P, I> {
    /// The tabs' invariants.
    pub open spec fn wf(&self) -> bool {
        self.prep@.wf() && self.run.wf()
    }

    /// The preparation tab selected, remembering the configuration path
    /// given on the command line; nothing loaded, listed or run yet. The
    /// caller reads that configuration, if any, and reports with
    /// `prep.finish_load`.
    pub fn new(config_path: Option<String>) -> (v: TabView<P, I>)
        ensures
            v.wf(),
            v.selected == Tab::Prep,
            v.prep@ == (PrepView { config_path: opt_chars(config_path), ..initial_prep() }),
            !v.run.paused,
            v.run.energy_history.entries() == Seq::<P>::empty(),
            v.exit.start_time is None,
            v.exit.end_time is None,
            v.exit.reported is None,
    {
        let mut prep = PrepTab::new();
        let _ = prep.set_config_path(config_path);
        TabView { selected: Tab::Prep, prep, run: RunTab::new(), exit: ExitTab::new() }
    }

    /// Handles a key: F1 to F3, Tab and Shift+Tab switch tabs; any other key
    /// goes to the selected tab (the exit tab takes none).
    pub fn handle_key_event(&mut self, key: KeyEvent) -> (r: PrepKey)
        requires
            old(self).wf(),
        ensures
            final(self).wf(),
            final(self).selected == old(self).selected,
            final(self).run == old(self).run,
            final(self).exit == old(self).exit,
            global_tab_key(key.code) is Some ==> r@ == PrepKeyView::Done(global_tab_key(key.code)) && final(self).prep@ == old(self).prep@,
            global_tab_key(key.code) is None ==> match old(self).selected {
                Tab::Prep => (final(self).prep@, r@) == prep_key_step(old(self).prep@, key.code),
                Tab::Run => final(self).prep@ == old(self).prep@ && r@ == PrepKeyView::Done(
                    if key.code == KeyCode::Char('p') || key.code == KeyCode::Char(' ') {
                        Some(if old(self).run.paused { Action::SimResume } else { Action::SimPause })
                    } else if key.code == KeyCode::Char('s') {
                        Some(Action::SimStop)
                    } else {
                        None
                    },
                ),
                Tab::Exit => final(self).prep@ == old(self).prep@ && r@ == PrepKeyView::Done(None),
            },
    {
        match key.code {
            KeyCode::F(n) => {
                if 1 <= n && n <= 3 {
                    return PrepKey::Done(Some(Action::SelectTab((n - 1) as usize)));
                }
            },
            KeyCode::Tab => {
                return PrepKey::Done(Some(Action::TabNext));
            },
            KeyCode::BackTab => {
                return PrepKey::Done(Some(Action::TabPrev));
            },
            _ => {},
        }
        match self.selected {
            Tab::Prep => self.prep.handle_key_event(key),
            Tab::Run => PrepKey::Done(self.run.handle_key_event(key)),
            Tab::Exit => PrepKey::Done(None),
        }
    }

    /// Follows an action, `now` being the time it arrived and `energy_point`
    /// the energy point the caller computed for an update: the selection
    /// moves, and every tab follows the action. No tab answers with an
    /// action of its own.
    pub fn update(&mut self, action: &Action, now: I, energy_point: Option<P>) -> (r: Option<Action>)
        requires
            old(self).wf(),
        ensures
            final(self).wf(),
            final(self).selected == tab_after_action(old(self).selected, *action),
            final(self).prep@ == prep_action_step(old(self).prep@, *action),
            final(self).run.paused == (match *action {
                Action::SimPause => true,
                Action::SimResume => false,
                Action::SimStop => false,
                _ => old(self).run.paused,
            }),
            final(self).run.energy_history.entries() == (match (*action, energy_point) {
                (Action::SimUpdate(_), Some(pt)) => capped_push(old(self).run.energy_history.entries(), pt, MAX_HISTORY as nat),
                _ => old(self).run.energy_history.entries(),
            }),
            (final(self).exit.start_time, final(self).exit.end_time) == (match *action {
                Action::SimStart => (Some(now), None),
                Action::SimUpdate(st) => if st.exited() {
                    (old(self).exit.start_time, Some(now))
                } else {
                    (old(self).exit.start_time, old(self).exit.end_time)
                },
                Action::SimStop => (old(self).exit.start_time, Some(now)),
                _ => (old(self).exit.start_time, old(self).exit.end_time),
            }),
            reported_view(final(self).exit.reported) == (match *action {
                Action::SimUpdate(st) => Some(opt_chars(st.exit_reason)),
                _ => reported_view(old(self).exit.reported),
            }),
            r is None,
    {
        match action {
            Action::SelectTab(n) => {
                self.selected = match Tab::from_repr(*n) {
                    Some(t) => t,
                    None => Tab::Prep,
                };
            },
            Action::TabNext => {
                let next = (self.selected.index() + 1) % TAB_COUNT;
                self.selected = match Tab::from_repr(next) {
                    Some(t) => t,
                    None => Tab::Prep,
                };
            },
            Action::TabPrev => {
                let prev = (self.selected.index() + TAB_COUNT - 1) % TAB_COUNT;
                self.selected = match Tab::from_repr(prev) {
                    Some(t) => t,
                    None => Tab::Prep,
                };
            },
            _ => {},
        }
        self.prep.update(action);
        self.run.update(action, energy_point);
        self.exit.update(action, now);
        None
    }
}

/// Moving to the next tab and back returns to the same tab.
pub proof fn lemma_next_then_prev(t: Tab)
    ensures
        tab_after_action(tab_after_action(t, Action::TabNext), Action::TabPrev) == t,
{
}

} // verus!
