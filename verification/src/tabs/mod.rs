//! The tabs of the interface and the navigation between them.

pub mod density;
pub mod poisson_detail;
pub mod settings;
pub mod run_control;
pub mod setup;
pub mod step_progress;
pub mod heatmap_panels;
pub mod controls;
pub mod rank;
pub mod toml_view;

use vstd::prelude::*;

use crate::action::Action;
use crate::keys::{KeyCode, KeyEvent};
use crate::plt_bridge::{colormap_names_spec, norm_next, position_of, theme_names_spec, NormMode};
use crate::text::{opt_chars, str_eq};
use controls::{
    density_key_step, energy_key_step, initial_density, initial_energy, initial_phase_space, initial_profiles, performance_key_step, phase_key_step, profiles_key_step, rank_key_step,
    DensityControls, EnergyControls, HistNorm, PerformanceControls, PhaseSpaceControls, ProfilesControls,
    RankControls, ViewRequest, BIN_PRESET_COUNT, NODE_COUNT,
};
use run_control::{initial_run_control, run_action_step, run_key_step, RunControlTab, RunControlView};
use settings::{initial_settings, settings_key_step, SettingsTab, SettingsView};
use setup::{initial_setup, setup_action_step, setup_key_step, SetupKey, SetupKeyView, SetupTab, SetupView};

verus! {

/// The number of tabs.
pub const TAB_COUNT: usize = 10;

#[derive(Default, Clone, Copy, Debug, PartialEq, Eq, Structural)]
pub enum Tab {
    #[default]
    Setup,
    RunControl,
    Density,
    PhaseSpace,
    Energy,
    Rank,
    Profiles,
    Performance,
    PoissonDetail,
    Settings,
}

/// The tabs in the order of the tab bar.
pub open spec fn tab_order() -> Seq<Tab> {
    seq![
        Tab::Setup,
        Tab::RunControl,
        Tab::Density,
        Tab::PhaseSpace,
        Tab::Energy,
        Tab::Rank,
        Tab::Profiles,
        Tab::Performance,
        Tab::PoissonDetail,
        Tab::Settings,
    ]
}

/// A tab's position in the tab bar.
pub open spec fn tab_index(t: Tab) -> nat {
    match t {
        Tab::Setup => 0,
        Tab::RunControl => 1,
        Tab::Density => 2,
        Tab::PhaseSpace => 3,
        Tab::Energy => 4,
        Tab::Rank => 5,
        Tab::Profiles => 6,
        Tab::Performance => 7,
        Tab::PoissonDetail => 8,
        Tab::Settings => 9,
    }
}

/// The tab at position `n`, or the first tab when there is none there.
pub open spec fn tab_or_default(n: int) -> Tab {
    if 0 <= n < TAB_COUNT {
        tab_order()[n]
    } else {
        Tab::Setup
    }
}

/// The tab after `t` in the bar, the first after the last.
pub open spec fn tab_next(t: Tab) -> Tab {
    tab_or_default((tab_index(t) as int + 1) % (TAB_COUNT as int))
}

/// The tab before `t` in the bar, the last before the first.
pub open spec fn tab_prev(t: Tab) -> Tab {
    tab_or_default((tab_index(t) as int + TAB_COUNT as int - 1) % (TAB_COUNT as int))
}

/// The tab-bar title of a tab.
pub open spec fn tab_title(t: Tab) -> Seq<char> {
    match t {
        Tab::Setup => "F1 Setup"@,
        Tab::RunControl => "F2 Run"@,
        Tab::Density => "F3 Density"@,
        Tab::PhaseSpace => "F4 Phase"@,
        Tab::Energy => "F5 Energy"@,
        Tab::Rank => "F6 Rank"@,
        Tab::Profiles => "F7 Profiles"@,
        Tab::Performance => "F8 Perf"@,
        Tab::PoissonDetail => "F9 Poisson"@,
        Tab::Settings => "F10 Settings"@,
    }
}

/// The abbreviated title of a tab in compact mode.
pub open spec fn compact_title(t: Tab) -> Seq<char> {
    match t {
        Tab::Setup => "1"@,
        Tab::RunControl => "2"@,
        Tab::Density => "3"@,
        Tab::PhaseSpace => "4"@,
        Tab::Energy => "5"@,
        Tab::Rank => "6"@,
        Tab::Profiles => "7"@,
        Tab::Performance => "8"@,
        Tab::PoissonDetail => "9"@,
        Tab::Settings => "10"@,
    }
}

impl Tab {
    /// The tab at position `n` of the bar, if there is one.
    pub fn from_repr(n: usize) -> (t: Option<Tab>)
        ensures
            n < TAB_COUNT ==> t == Some(tab_order()[n as int]),
            n >= TAB_COUNT ==> t is None,
    {
        match n {
            0 => Some(Tab::Setup),
            1 => Some(Tab::RunControl),
            2 => Some(Tab::Density),
            3 => Some(Tab::PhaseSpace),
            4 => Some(Tab::Energy),
            5 => Some(Tab::Rank),
            6 => Some(Tab::Profiles),
            7 => Some(Tab::Performance),
            8 => Some(Tab::PoissonDetail),
            9 => Some(Tab::Settings),
            _ => None,
        }
    }

    /// The tab's position in the bar.
    pub fn index(self) -> (i: usize)
        ensures
            i == tab_index(self),
    {
        match self {
            Tab::Setup => 0,
            Tab::RunControl => 1,
            Tab::Density => 2,
            Tab::PhaseSpace => 3,
            Tab::Energy => 4,
            Tab::Rank => 5,
            Tab::Profiles => 6,
            Tab::Performance => 7,
            Tab::PoissonDetail => 8,
            Tab::Settings => 9,
        }
    }

    /// The tab-bar title, such as "F3 Density".
    pub fn to_string(&self) -> (s: String)
        ensures
            s@ == tab_title(*self),
    {
        let lit = match self {
            Tab::Setup => "F1 Setup",
            Tab::RunControl => "F2 Run",
            Tab::Density => "F3 Density",
            Tab::PhaseSpace => "F4 Phase",
            Tab::Energy => "F5 Energy",
            Tab::Rank => "F6 Rank",
            Tab::Profiles => "F7 Profiles",
            Tab::Performance => "F8 Perf",
            Tab::PoissonDetail => "F9 Poisson",
            Tab::Settings => "F10 Settings",
        };
        String::from_str(lit)
    }
}

/// The abbreviated tab label used in compact mode: the tab's number.
pub fn compact_tab_label(tab: Tab) -> (s: String)
    ensures
        s@ == compact_title(tab),
{
    let lit = match tab {
        Tab::Setup => "1",
        Tab::RunControl => "2",
        Tab::Density => "3",
        Tab::PhaseSpace => "4",
        Tab::Energy => "5",
        Tab::Rank => "6",
        Tab::Profiles => "7",
        Tab::Performance => "8",
        Tab::PoissonDetail => "9",
        Tab::Settings => "10",
    };
    String::from_str(lit)
}

/// The tabs' state: which one is selected, and the settings of each that
/// the keys change. What a plotting tab keeps in floating point (zoom, time
/// windows, histories) is kept by the caller, who applies the view requests
/// that keys return.
pub struct TabView {
    pub selected: Tab,
    pub setup: SetupTab,
    pub run_control: RunControlTab,
    pub density: DensityControls,
    pub phase_space: PhaseSpaceControls,
    pub energy: EnergyControls,
    pub rank: RankControls,
    pub profiles: ProfilesControls,
    pub performance: PerformanceControls,
    pub settings: SettingsTab,
}

/// What the tabs hold.
pub struct TabViewView {
    pub selected: Tab,
    pub setup: SetupView,
    pub run_control: RunControlView,
    pub density: DensityControls,
    pub phase_space: PhaseSpaceControls,
    pub energy: EnergyControls,
    pub rank: RankControls,
    pub profiles: ProfilesControls,
    pub performance: PerformanceControls,
    pub settings: SettingsView,
}

impl View for TabView {
    type V = TabViewView;

    open spec fn view(&self) -> TabViewView {
        TabViewView {
            selected: self.selected,
            setup: self.setup@,
            run_control: self.run_control@,
            density: self.density,
            phase_space: self.phase_space,
            energy: self.energy,
            rank: self.rank,
            profiles: self.profiles,
            performance: self.performance,
            settings: self.settings@,
        }
    }
}

impl TabViewView {
    /// Each tab's selections point into their lists.
    pub open spec fn wf(self) -> bool {
        &&& self.setup.wf()
        &&& self.run_control.wf()
        &&& self.settings.wf()
        &&& self.rank.selected_node < NODE_COUNT
        &&& self.profiles.bin_preset_idx < BIN_PRESET_COUNT
    }
}

/// What a key asks of the tabs' owner.
#[derive(Debug)]
pub enum TabKey {
    /// Send the action, if any.
    Done(Option<Action>),
    /// Read the configuration file at the path and report to the Setup tab
    /// with `finish_load`.
    Load(String),
    /// Apply the request to the selected tab's floating-point view state.
    View(ViewRequest),
}

/// A key's request with the path as a view.
pub enum TabKeyView {
    Done(Option<Action>),
    Load(Seq<char>),
    View(ViewRequest),
}

impl View for TabKey {
    type V = TabKeyView;

    open spec fn view(&self) -> TabKeyView {
        match self {
            TabKey::Done(a) => TabKeyView::Done(*a),
            TabKey::Load(p) => TabKeyView::Load(p@),
            TabKey::View(r) => TabKeyView::View(*r),
        }
    }
}

/// The action a key asks for regardless of the selected tab: F1 to F10 select
/// a tab, Tab and Shift+Tab move to the next and previous one. Other keys are
/// left to the selected tab.
pub open spec fn global_tab_key(code: KeyCode) -> Option<Action> {
    match code {
        KeyCode::F(n) => if 1 <= n <= 10 {
            Some(Action::SelectTab((n - 1) as usize))
        } else {
            None
        },
        KeyCode::Tab => Some(Action::TabNext),
        KeyCode::BackTab => Some(Action::TabPrev),
        _ => None,
    }
}

/// Whether the tab draws a heatmap, whose colormap `c` cycles.
pub open spec fn heatmap_tab(t: Tab) -> bool {
    t == Tab::Density || t == Tab::PhaseSpace
}

/// The tabs after a key and what the key asks for: a tab-switching key asks
/// for its action; on the heatmap tabs `c` asks to cycle the colormap; any
/// other key goes to the selected tab.
pub open spec fn tab_key_step(v: TabViewView, code: KeyCode) -> (TabViewView, TabKeyView) {
    match global_tab_key(code) {
        Some(a) => (v, TabKeyView::Done(Some(a))),
        None => if heatmap_tab(v.selected) && code == KeyCode::Char('c') {
            (v, TabKeyView::Done(Some(Action::VizCycleColormap)))
        } else {
            match v.selected {
            Tab::Setup => {
                let (s, r) = setup_key_step(v.setup, code);
                (
                    TabViewView { setup: s, ..v },
                    match r {
                        SetupKeyView::Done(a) => TabKeyView::Done(a),
                        SetupKeyView::Load(p) => TabKeyView::Load(p),
                    },
                )
            },
            Tab::RunControl => {
                let (r, a) = run_key_step(v.run_control, code);
                (TabViewView { run_control: r, ..v }, TabKeyView::Done(a))
            },
            Tab::Density => {
                let (d, q) = density_key_step(v.density, code);
                (TabViewView { density: d, ..v }, TabKeyView::View(q))
            },
            Tab::PhaseSpace => {
                let (p, q) = phase_key_step(v.phase_space, code);
                (TabViewView { phase_space: p, ..v }, TabKeyView::View(q))
            },
            Tab::Energy => {
                let (e, q) = energy_key_step(v.energy, code);
                (TabViewView { energy: e, ..v }, TabKeyView::View(q))
            },
            Tab::Rank => (TabViewView { rank: rank_key_step(v.rank, code), ..v }, TabKeyView::Done(None)),
            Tab::Profiles => (TabViewView { profiles: profiles_key_step(v.profiles, code), ..v }, TabKeyView::Done(None)),
            Tab::Performance => (
                TabViewView { performance: performance_key_step(v.performance, code), ..v },
                TabKeyView::Done(None),
            ),
            Tab::PoissonDetail => (v, TabKeyView::Done(None)),
            Tab::Settings => {
                let (s, a) = settings_key_step(v.settings, code);
                (TabViewView { settings: s, ..v }, TabKeyView::Done(a))
            },
            }
        },
    }
}

/// The selected tab after an action.
pub open spec fn tab_after_action(t: Tab, a: Action) -> Tab {
    match a {
        Action::SelectTab(n) => tab_or_default(n as int),
        Action::TabNext => tab_next(t),
        Action::TabPrev => tab_prev(t),
        Action::SimStart => Tab::RunControl,
        Action::SimRestart => Tab::RunControl,
        _ => t,
    }
}

/// The density and phase-space settings follow the log-scale toggle.
pub open spec fn norm_after_action(m: NormMode, a: Action) -> NormMode {
    if a == Action::VizToggleLog {
        norm_next(m)
    } else {
        m
    }
}

/// The tabs after an action: the selection moves as `tab_after_action`
/// says, and every tab follows the action.
pub open spec fn tab_action_step(v: TabViewView, a: Action) -> TabViewView {
    TabViewView {
        selected: tab_after_action(v.selected, a),
        setup: setup_action_step(v.setup, a),
        run_control: run_action_step(v.run_control, a),
        density: DensityControls { norm_mode: norm_after_action(v.density.norm_mode, a), ..v.density },
        phase_space: PhaseSpaceControls { norm_mode: norm_after_action(v.phase_space.norm_mode, a), ..v.phase_space },
        ..v
    }
}

/// The tabs at start: the first tab selected and every tab in its initial
/// state, the Setup tab remembering the configuration path.
pub open spec fn initial_tabs(config_path: Option<Seq<char>>) -> TabViewView {
    TabViewView {
        selected: Tab::Setup,
        setup: initial_setup(config_path),
        run_control: initial_run_control(),
        density: initial_density(),
        phase_space: initial_phase_space(),
        energy: initial_energy(),
        rank: RankControls { selected_node: 0 },
        profiles: initial_profiles(),
        performance: PerformanceControls { hist_norm: HistNorm::Count, dist_mode: 0 },
        settings: initial_settings(),
    }
}

impl TabView {
    /// The first tab selected and every tab in its initial state; the Setup
    /// tab remembers the configuration path given on the command line.
    pub fn new(config_path: Option<String>) -> (v: TabView)
        ensures
            v@.wf(),
            v@ == initial_tabs(opt_chars(config_path)),
    {
        TabView {
            selected: Tab::Setup,
            setup: SetupTab::new(config_path),
            run_control: RunControlTab::new(),
            density: DensityControls::new(),
            phase_space: PhaseSpaceControls::new(),
            energy: EnergyControls::new(),
            rank: RankControls::new(),
            profiles: ProfilesControls::new(),
            performance: PerformanceControls::new(),
            settings: SettingsTab::new(),
        }
    }

    /// Selects the tab at position `index`, or the first tab when there is
    /// none there.
    pub fn restore_tab(&mut self, index: usize)
        ensures
            final(self)@ == (TabViewView { selected: tab_or_default(index as int), ..old(self)@ }),
    {
        self.selected = match Tab::from_repr(index) {
            Some(t) => t,
            None => Tab::Setup,
        };
    }

    /// Sync the Settings tab from the application's theme and colormap.
    pub fn sync_settings(&mut self, theme_name: &str, colormap_name: &str)
        requires
            old(self)@.wf(),
        ensures
            final(self)@.wf(),
            final(self)@ == (TabViewView {
                settings: SettingsView {
                    theme_idx: match position_of(theme_names_spec(), theme_name@) { Some(i) => i, None => 0 },
                    colormap_idx: match position_of(colormap_names_spec(), colormap_name@) { Some(i) => i, None => 0 },
                    ..old(self)@.settings
                },
                ..old(self)@
            }),
    {
        self.settings.sync(theme_name, colormap_name);
    }

    /// The theme chosen in the Settings tab.
    pub fn settings_theme_name(&self) -> (s: String)
        requires
            self@.wf(),
        ensures
            s@ == theme_names_spec()[self@.settings.theme_idx as int],
    {
        self.settings.current_theme_name()
    }

    /// The colormap chosen in the Settings tab.
    pub fn settings_colormap_name(&self) -> (s: String)
        requires
            self@.wf(),
        ensures
            s@ == colormap_names_spec()[self@.settings.colormap_idx as int],
    {
        self.settings.current_colormap_name()
    }

    /// Shows or hides the Setup tab's preset list.
    pub fn setup_toggle_presets(&mut self)
        requires
            old(self)@.wf(),
        ensures
            final(self)@.wf(),
            final(self)@ == (TabViewView {
                setup: SetupView { preset_popup: !old(self)@.setup.preset_popup, preset_selected: 0, ..old(self)@.setup },
                ..old(self)@
            }),
    {
        self.setup.toggle_preset_popup();
    }

    /// Resets the Setup tab's configuration to the defaults.
    pub fn setup_reset_defaults(&mut self)
        requires
            old(self)@.wf(),
        ensures
            final(self)@.wf(),
            final(self)@ == (TabViewView {
                setup: SetupView {
                    config_loaded: true,
                    line_count: 1,
                    lines: seq!["# Default configuration"@],
                    toml_scroll: 0,
                    ..old(self)@.setup
                },
                ..old(self)@
            }),
    {
        self.setup.reset_to_defaults();
    }

    /// Handles a key: see `tab_key_step`.
    pub fn handle_key_event(&mut self, key: KeyEvent) -> (r: TabKey)
        requires
            old(self)@.wf(),
        ensures
            final(self)@.wf(),
            (final(self)@, r@) == tab_key_step(old(self)@, key.code),
    {
        match key.code {
            KeyCode::F(n) => {
                if 1 <= n && n <= 10 {
                    return TabKey::Done(Some(Action::SelectTab((n - 1) as usize)));
                }
            },
            KeyCode::Tab => {
                return TabKey::Done(Some(Action::TabNext));
            },
            KeyCode::BackTab => {
                return TabKey::Done(Some(Action::TabPrev));
            },
            _ => {},
        }
        if (self.selected == Tab::Density || self.selected == Tab::PhaseSpace) && key.code == KeyCode::Char('c') {
            return TabKey::Done(Some(Action::VizCycleColormap));
        }
        match self.selected {
            Tab::Setup => match self.setup.handle_key_event(key) {
                SetupKey::Done(a) => TabKey::Done(a),
                SetupKey::Load(p) => TabKey::Load(p),
            },
            Tab::RunControl => TabKey::Done(self.run_control.handle_key_event(key)),
            Tab::Density => TabKey::View(self.density.handle_key_event(key)),
            Tab::PhaseSpace => TabKey::View(self.phase_space.handle_key_event(key)),
            Tab::Energy => TabKey::View(self.energy.handle_key_event(key)),
            Tab::Rank => TabKey::Done(self.rank.handle_key_event(key)),
            Tab::Profiles => TabKey::Done(self.profiles.handle_key_event(key)),
            Tab::Performance => TabKey::Done(self.performance.handle_key_event(key)),
            Tab::PoissonDetail => TabKey::Done(None),
            Tab::Settings => TabKey::Done(self.settings.handle_key_event(key)),
        }
    }

    /// Follows an action: see `tab_action_step`. No tab answers with an
    /// action of its own.
    pub fn update(&mut self, action: &Action) -> (r: Option<Action>)
        requires
            old(self)@.wf(),
        ensures
            final(self)@.wf(),
            final(self)@ == tab_action_step(old(self)@, *action),
            r is None,
    {
        self.follow_selection(action);
        self.setup.update(action);
        self.run_control.update(action);
        self.density.update(action);
        self.phase_space.update(action);
        None
    }

    fn follow_selection(&mut self, action: &Action)
        ensures
            final(self)@ == (TabViewView { selected: tab_after_action(old(self)@.selected, *action), ..old(self)@ }),
    {
        match action {
            Action::SelectTab(n) => {
                self.restore_tab(*n);
            },
            Action::TabNext => {
                let next = (self.selected.index() + 1) % TAB_COUNT;
                self.restore_tab(next);
            },
            Action::TabPrev => {
                let prev = (self.selected.index() + TAB_COUNT - 1) % TAB_COUNT;
                self.restore_tab(prev);
            },
            Action::SimStart | Action::SimRestart => {
                self.selected = Tab::RunControl;
            },
            _ => {},
        }
    }
}

/// Moving to the next tab and back returns to the same tab.
pub proof fn lemma_tab_next_prev(t: Tab)
    ensures
        tab_prev(tab_next(t)) == t,
        tab_next(tab_prev(t)) == t,
{
}

proof fn lemma_next_index(t: Tab)
    ensures
        tab_index(tab_next(t)) == (tab_index(t) + 1) % 10,
        tab_or_default(tab_index(t) as int) == t,
{
}

/// Ten moves to the next tab go round the bar once.
#[verifier::spinoff_prover]
#[verifier::rlimit(60)]
pub proof fn lemma_tab_cycle(t: Tab)
    ensures
        tab_next(tab_next(tab_next(tab_next(tab_next(tab_next(tab_next(tab_next(tab_next(tab_next(t)))))))))) == t,
{
    let t1 = tab_next(t);
    let t2 = tab_next(t1);
    let t3 = tab_next(t2);
    let t4 = tab_next(t3);
    let t5 = tab_next(t4);
    let t6 = tab_next(t5);
    let t7 = tab_next(t6);
    let t8 = tab_next(t7);
    let t9 = tab_next(t8);
    let t10 = tab_next(t9);
    lemma_next_index(t);
    lemma_next_index(t1);
    lemma_next_index(t2);
    lemma_next_index(t3);
    lemma_next_index(t4);
    lemma_next_index(t5);
    lemma_next_index(t6);
    lemma_next_index(t7);
    lemma_next_index(t8);
    lemma_next_index(t9);
    lemma_next_index(t10);
    assert(tab_index(t10) == tab_index(t));
}

/// The function key Fn selects the n-th tab.
pub proof fn lemma_function_key_selects(n: u8, t: Tab)
    requires
        1 <= n <= 10,
    ensures
        global_tab_key(KeyCode::F(n)) matches Some(a) && tab_after_action(t, a) == tab_order()[n - 1],
{
}

/// A tab is unavailable when the running simulation lacks what it shows:
/// Rank needs the hierarchical Tucker representation ("ht"), Poisson Detail
/// the "fft_isolated" solver. Such tabs are dimmed in the tab bar.
pub open spec fn tab_unavailable(tab: Tab, repr_type: Seq<char>, poisson_type: Seq<char>) -> bool {
    (tab == Tab::Rank && repr_type != "ht"@) || (tab == Tab::PoissonDetail && poisson_type != "fft_isolated"@)
}

/// Whether the tab is dimmed in the tab bar.
pub fn tab_dimmed(tab: Tab, repr_type: &str, poisson_type: &str) -> (b: bool)
    ensures
        b == tab_unavailable(tab, repr_type@, poisson_type@),
{
    (tab == Tab::Rank && !str_eq(repr_type, "ht")) || (tab == Tab::PoissonDetail && !str_eq(poisson_type, "fft_isolated"))
}

/// The message shown in place of an unavailable tab's content.
pub fn unavailable_message(tab: Tab, repr_type: &str, poisson_type: &str) -> (m: Option<&'static str>)
    ensures
        m is Some <==> tab_unavailable(tab, repr_type@, poisson_type@),
        tab == Tab::Rank && m is Some ==> m->0@ == "Rank Monitor requires hierarchical_tucker representation"@,
        tab == Tab::PoissonDetail && m is Some ==> m->0@ == "Poisson Detail requires fft_isolated solver"@,
{
    if tab == Tab::Rank && !str_eq(repr_type, "ht") {
        Some("Rank Monitor requires hierarchical_tucker representation")
    } else if tab == Tab::PoissonDetail && !str_eq(poisson_type, "fft_isolated") {
        Some("Poisson Detail requires fft_isolated solver")
    } else {
        None
    }
}

/// The title of the content block of a tab.
pub open spec fn content_title_spec(tab: Tab) -> Seq<char> {
    match tab {
        Tab::Setup => " ► Setup "@,
        Tab::RunControl => " ► Run Control "@,
        Tab::Density => " ► Density "@,
        Tab::PhaseSpace => " ► Phase Space "@,
        Tab::Energy => " ► Energy Conservation "@,
        Tab::Rank => " ► Rank Monitor "@,
        Tab::Profiles => " ► Profiles "@,
        Tab::Performance => " ► Performance "@,
        Tab::PoissonDetail => " ► Poisson Detail "@,
        Tab::Settings => " ► Settings "@,
    }
}

/// The title of the content block of a tab.
pub fn content_title(tab: Tab) -> (s: &'static str)
    ensures
        s@ == content_title_spec(tab),
{
    match tab {
        Tab::Setup => " ► Setup ",
        Tab::RunControl => " ► Run Control ",
        Tab::Density => " ► Density ",
        Tab::PhaseSpace => " ► Phase Space ",
        Tab::Energy => " ► Energy Conservation ",
        Tab::Rank => " ► Rank Monitor ",
        Tab::Profiles => " ► Profiles ",
        Tab::Performance => " ► Performance ",
        Tab::PoissonDetail => " ► Poisson Detail ",
        Tab::Settings => " ► Settings ",
    }
}

} // verus!
