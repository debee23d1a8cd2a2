//! The decisions of the interface's event loop: how a key press is routed
//! through the overlays and global shortcuts, and what each action changes
//! and asks the loop to do.

use vstd::prelude::*;

use crate::action::{Action, SimStatus};
use crate::command_palette::{
    closed_palette, palette_edited, parse_command_spec, Command, CommandPalette, CommandPaletteView,
    CommandView,
};
use crate::export_menu::{export_key_step, formats, ExportFormat, ExportMenu, ExportMenuView};
use crate::help::{scrolled_down, scrolled_up, toggled, HelpOverlay, HelpOverlayView};
use crate::keys::{KeyCode, KeyEvent};
use crate::status_bar::{active, paused, resumed, started, stopped, updated, StatusBar, StatusBarView, StepNotice};
use crate::tabs::controls::ViewRequest;
use crate::tabs::{tab_action_step, tab_key_step, initial_tabs, Tab, TabKey, TabKeyView, TabView, TabViewView};
use crate::tabs::setup::SetupView;
use crate::guard::TerminalGuard;
use crate::text::{opt_chars, str_eq};
use crate::text::{file_name, file_name_of, strip_suffix, strip_suffix_of};

verus! {

/// Which data source the interface shows: the live simulation, a recorded
/// run played back, or two runs compared.
#[derive(Clone, Copy, Debug, PartialEq, Eq, Structural)]
pub enum AltProvider {
    /// The live simulation.
    Live,
    Playback,
    Comparison,
}

#[derive(Default, Debug, Copy, Clone, PartialEq, Eq, Hash, Structural)]
pub enum Mode {
    #[default]
    Home,
}

/// What a key that the selected tab passed on asks for.
#[derive(Debug, Clone, PartialEq, Eq)]
pub enum AfterTab {
    /// Send the action on the action channel.
    Send(Action),
    /// Play back more slowly.
    PlaybackSlower,
    /// Play back faster.
    PlaybackFaster,
    /// Step the playback one frame back.
    PlaybackStepBackward,
    /// Step the playback one frame forward.
    PlaybackStepForward,
    /// Nothing.
    Nothing,
    /// Look the key up in the configured keybindings.
    Keymap,
}

/// What the event loop does with a key beyond the state changes that the
/// library makes itself.
#[derive(Debug)]
pub enum KeyEffect {
    /// The key is used up.
    Nothing,
    /// Send the action on the action channel.
    Send(Action),
    /// Export the diagnostics in the format chosen in the export menu.
    Export(ExportFormat),
    /// Run a command submitted from the palette.
    Execute(Command),
    /// Play or pause the playback.
    TogglePlayback,
    /// Cycle the comparison between run A, run B and their difference.
    CycleComparisonView,
    /// Bookmark the current simulation time.
    AddBookmark,
    /// Save the configuration to its file.
    SaveConfig,
    /// Read the configuration file at the path and report to the Setup tab
    /// with `finish_load`; send the action it answers with, and when it
    /// answers with none, do what the second field says.
    LoadConfig(String, AfterTab),
    /// The selected tab took the key: apply the request to its
    /// floating-point view state, then do what the second field says.
    Tab(ViewRequest, AfterTab),
}

/// A key effect with the submitted command and the path as views.
pub enum KeyEffectView {
    Nothing,
    Send(Action),
    Export(ExportFormat),
    Execute(CommandView),
    TogglePlayback,
    CycleComparisonView,
    AddBookmark,
    SaveConfig,
    LoadConfig(Seq<char>, AfterTab),
    Tab(ViewRequest, AfterTab),
}

impl View for KeyEffect {
    type V = KeyEffectView;

    open spec fn view(&self) -> KeyEffectView {
        match self {
            KeyEffect::Nothing => KeyEffectView::Nothing,
            KeyEffect::Send(a) => KeyEffectView::Send(*a),
            KeyEffect::Export(f) => KeyEffectView::Export(*f),
            KeyEffect::Execute(c) => KeyEffectView::Execute(c@),
            KeyEffect::TogglePlayback => KeyEffectView::TogglePlayback,
            KeyEffect::CycleComparisonView => KeyEffectView::CycleComparisonView,
            KeyEffect::AddBookmark => KeyEffectView::AddBookmark,
            KeyEffect::SaveConfig => KeyEffectView::SaveConfig,
            KeyEffect::LoadConfig(p, t) => KeyEffectView::LoadConfig(p@, *t),
            KeyEffect::Tab(r, t) => KeyEffectView::Tab(*r, *t),
        }
    }
}

/// The state of the interface that the event loop's decisions read and
/// change: the overlays, the selected tab, the status bar's run record, the
/// data source, whether a simulation is attached and paused, the loop's
/// flags and the configuration file.
pub struct AppState {
    pub quit_confirm: bool,
    pub help: HelpOverlay,
    pub export_menu: ExportMenu,
    pub command_palette: CommandPalette,
    pub tab_view: TabView,
    pub status_bar: StatusBar,
    pub provider: AltProvider,
    pub sim_running: bool,
    pub sim_paused: bool,
    pub should_quit: bool,
    pub should_suspend: bool,
    pub needs_redraw: bool,
    pub config_path: Option<String>,
    pub mode: Mode,
    /// Whether the bookmark panel shows.
    pub bookmark_panel: bool,
}

/// What the interface's state is.
pub struct AppView {
    pub quit_confirm: bool,
    pub help: HelpOverlayView,
    pub export_menu: ExportMenuView,
    pub palette: CommandPaletteView,
    pub tabs: TabViewView,
    pub status: StatusBarView,
    pub provider: AltProvider,
    pub sim_running: bool,
    pub sim_paused: bool,
    pub should_quit: bool,
    pub should_suspend: bool,
    pub needs_redraw: bool,
    pub config_path: Option<Seq<char>>,
    pub bookmark_panel: bool,
}

impl View for AppState {
    type V = AppView;

    open spec fn view(&self) -> AppView {
        AppView {
            quit_confirm: self.quit_confirm,
            help: self.help@,
            export_menu: self.export_menu@,
            palette: self.command_palette@,
            tabs: self.tab_view@,
            status: self.status_bar@,
            provider: self.provider,
            sim_running: self.sim_running,
            sim_paused: self.sim_paused,
            should_quit: self.should_quit,
            should_suspend: self.should_suspend,
            needs_redraw: self.needs_redraw,
            config_path: opt_chars(self.config_path),
            bookmark_panel: self.bookmark_panel,
        }
    }
}

impl AppView {
    /// The export menu's selection is one of its formats, the palette's
    /// cursor is within its text, and the tabs' selections point into their
    /// lists.
    pub open spec fn wf(self) -> bool {
        self.export_menu.wf() && self.palette.wf() && self.tabs.wf()
    }
}

/// The routing of a key while the quit confirmation shows: `y` or Enter
/// quits, `n` or Esc dismisses it, other keys are ignored.
pub open spec fn confirm_key(s: AppView, code: KeyCode) -> (AppView, KeyEffectView) {
    if code == KeyCode::Char('y') || code == KeyCode::Enter {
        (AppView { quit_confirm: false, ..s }, KeyEffectView::Send(Action::Quit))
    } else if code == KeyCode::Char('n') || code == KeyCode::Esc {
        (AppView { quit_confirm: false, ..s }, KeyEffectView::Nothing)
    } else {
        (s, KeyEffectView::Nothing)
    }
}

/// The routing of a key while the help overlay shows: `?` or Esc closes it,
/// Down/`j` and Up/`k` scroll it, other keys are ignored.
pub open spec fn help_key(s: AppView, code: KeyCode) -> (AppView, KeyEffectView) {
    let h = if code == KeyCode::Char('?') || code == KeyCode::Esc {
        toggled(s.help)
    } else if code == KeyCode::Down || code == KeyCode::Char('j') {
        scrolled_down(s.help)
    } else if code == KeyCode::Up || code == KeyCode::Char('k') {
        scrolled_up(s.help)
    } else {
        s.help
    };
    (AppView { help: h, ..s }, KeyEffectView::Nothing)
}

/// The routing of a key while the export menu shows: the menu handles it,
/// and when it closes asking for the export, the selected format is exported.
pub open spec fn export_key(s: AppView, code: KeyCode) -> (AppView, KeyEffectView) {
    let (m, a) = export_key_step(s.export_menu, code);
    (
        AppView { export_menu: m, ..s },
        if a == Some(Action::ExportMenuClose) {
            KeyEffectView::Export(formats()[m.selected as int])
        } else {
            KeyEffectView::Nothing
        },
    )
}

/// The routing of a key while the command palette shows: Esc closes it,
/// Enter closes it and runs the command the input names (if any), other
/// keys edit the input.
pub open spec fn palette_key(s: AppView, code: KeyCode) -> (AppView, KeyEffectView) {
    if code == KeyCode::Esc {
        (AppView { palette: closed_palette(), ..s }, KeyEffectView::Nothing)
    } else if code == KeyCode::Enter {
        (
            AppView { palette: closed_palette(), ..s },
            match parse_command_spec(s.palette.input) {
                Some(c) => KeyEffectView::Execute(c),
                None => KeyEffectView::Nothing,
            },
        )
    } else {
        (AppView { palette: palette_edited(s.palette, code), ..s }, KeyEffectView::Nothing)
    }
}

/// The routing of a key that no overlay takes: the global shortcuts, then
/// the Control shortcuts, then `/`; any other key goes to the tabs, and what
/// they pass on is routed by `after_tab_key`.
pub open spec fn global_key(s: AppView, key: KeyEvent) -> (AppView, KeyEffectView) {
    let code = key.code;
    if code == KeyCode::Char('q') {
        // A running, active simulation asks for confirmation first.
        if s.sim_running && active(s.status) {
            (AppView { quit_confirm: true, ..s }, KeyEffectView::Nothing)
        } else {
            (s, KeyEffectView::Send(Action::Quit))
        }
    } else if code == KeyCode::Char(' ') {
        if s.provider == AltProvider::Playback {
            (s, KeyEffectView::TogglePlayback)
        } else if s.sim_running {
            (s, KeyEffectView::Send(if s.sim_paused { Action::SimResume } else { Action::SimPause }))
        } else {
            (s, KeyEffectView::Nothing)
        }
    } else if code == KeyCode::Char('c') && s.provider == AltProvider::Comparison {
        (s, KeyEffectView::CycleComparisonView)
    } else if code == KeyCode::Char('?') {
        (AppView { help: toggled(s.help), ..s }, KeyEffectView::Nothing)
    } else if code == KeyCode::Char('e') {
        (
            AppView { export_menu: ExportMenuView { visible: !s.export_menu.visible, last_result: None, ..s.export_menu }, ..s },
            KeyEffectView::Nothing,
        )
    } else if code == KeyCode::Char('T') {
        (s, KeyEffectView::Send(Action::ThemeCycle))
    } else if code == KeyCode::Char('C') {
        (s, KeyEffectView::Send(Action::VizCycleColormap))
    } else if code == KeyCode::Char(':') {
        (AppView { palette: CommandPaletteView { visible: true, input: Seq::empty(), cursor: 0 }, ..s }, KeyEffectView::Nothing)
    } else if code == KeyCode::Char('a') {
        (s, KeyEffectView::AddBookmark)
    } else if key.ctrl && code == KeyCode::Char('b') {
        (AppView { bookmark_panel: !s.bookmark_panel, ..s }, KeyEffectView::Nothing)
    } else if key.ctrl && code == KeyCode::Char('s') {
        (s, KeyEffectView::SaveConfig)
    } else if key.ctrl && code == KeyCode::Char('o') {
        (s, KeyEffectView::Send(Action::SelectTab(0)))
    } else if key.ctrl && code == KeyCode::Char('p') {
        if s.tabs.selected == Tab::Setup {
            (
                AppView {
                    tabs: TabViewView {
                        setup: SetupView { preset_popup: !s.tabs.setup.preset_popup, preset_selected: 0, ..s.tabs.setup },
                        ..s.tabs
                    },
                    ..s
                },
                KeyEffectView::Nothing,
            )
        } else {
            (s, KeyEffectView::Nothing)
        }
    } else if key.ctrl && code == KeyCode::Char('d') {
        if s.tabs.selected == Tab::Setup {
            (
                AppView {
                    tabs: TabViewView {
                        setup: SetupView {
                            config_loaded: true,
                            line_count: 1,
                            lines: seq!["# Default configuration"@],
                            toml_scroll: 0,
                            ..s.tabs.setup
                        },
                        ..s.tabs
                    },
                    ..s
                },
                KeyEffectView::Nothing,
            )
        } else {
            (s, KeyEffectView::Nothing)
        }
    } else if code == KeyCode::Char('/') {
        (AppView { palette: CommandPaletteView { visible: true, input: "jump "@, cursor: 5 }, ..s }, KeyEffectView::Nothing)
    } else {
        tabs_key(s, code)
    }
}

/// The routing of a key that the tabs take: a tab-switching key or a tab's
/// action is sent; what a tab passes on is routed by `after_tab_key`, after
/// the tab's view request or the configuration load it asks for.
pub open spec fn tabs_key(s: AppView, code: KeyCode) -> (AppView, KeyEffectView) {
    let (t, r) = tab_key_step(s.tabs, code);
    (
        AppView { tabs: t, ..s },
        match r {
            TabKeyView::Done(Some(a)) => KeyEffectView::Send(a),
            TabKeyView::Done(None) => KeyEffectView::Tab(ViewRequest::Nothing, after_tab_key(s.provider, code)),
            TabKeyView::Load(p) => KeyEffectView::LoadConfig(p, after_tab_key(s.provider, code)),
            TabKeyView::View(q) => KeyEffectView::Tab(q, after_tab_key(s.provider, code)),
        },
    )
}

/// How a key is routed: the quit confirmation, the help overlay, the export
/// menu and the command palette each take every key while they show, in that
/// order; otherwise the global routing applies.
pub open spec fn route_key(s: AppView, key: KeyEvent) -> (AppView, KeyEffectView) {
    if s.quit_confirm {
        confirm_key(s, key.code)
    } else if s.help.visible {
        help_key(s, key.code)
    } else if s.export_menu.visible {
        export_key(s, key.code)
    } else if s.palette.visible {
        palette_key(s, key.code)
    } else {
        global_key(s, key)
    }
}

/// What a key that the selected tab passed on asks for: the scrubbing keys,
/// the playback keys (only during playback), and otherwise a lookup in the
/// configured keybindings.
pub open spec fn after_tab_key(provider: AltProvider, code: KeyCode) -> AfterTab {
    let playback = provider == AltProvider::Playback;
    match code {
        KeyCode::Left => AfterTab::Send(Action::ScrubBackward),
        KeyCode::Right => AfterTab::Send(Action::ScrubForward),
        KeyCode::Home => AfterTab::Send(Action::ScrubToStart),
        KeyCode::End => AfterTab::Send(Action::ScrubToEnd),
        KeyCode::Backspace => AfterTab::Send(Action::ScrubToLive),
        KeyCode::Char(c) => if c == '[' {
            AfterTab::Send(Action::ScrubBackward)
        } else if c == ']' {
            AfterTab::Send(Action::ScrubForward)
        } else if c == '{' {
            AfterTab::Send(Action::ScrubJumpBackward)
        } else if c == '}' {
            AfterTab::Send(Action::ScrubJumpForward)
        } else if c == '<' {
            if playback { AfterTab::PlaybackSlower } else { AfterTab::Nothing }
        } else if c == '>' {
            if playback { AfterTab::PlaybackFaster } else { AfterTab::Nothing }
        } else if c == ',' {
            if playback { AfterTab::PlaybackStepBackward } else { AfterTab::Nothing }
        } else if c == '.' {
            if playback { AfterTab::PlaybackStepForward } else { AfterTab::Nothing }
        } else {
            AfterTab::Keymap
        },
        _ => AfterTab::Keymap,
    }
}

} // verus!

verus! {

/// A terminal event, as far as the event loop's decisions read it.
#[derive(Debug, Clone, Copy, PartialEq, Eq, Structural)]
pub enum TermEvent {
    Quit,
    Tick,
    Render,
    Resize(u16, u16),
    Key(KeyEvent),
    ScrollUp,
    ScrollDown,
    MouseMoved(u16, u16),
    Other,
}

/// What the event loop does for a terminal event beyond the state changes
/// that the library makes itself.
#[derive(Debug)]
pub enum EventEffect {
    /// Nothing.
    Nothing,
    /// Send the action on the action channel.
    Send(Action),
    /// Do what the key asks: see `KeyEffect`.
    Key(KeyEffect),
    /// Zoom the selected heatmap tab by the scroll (negative zooms in).
    Scroll(i32),
    /// Move the selected heatmap tab's data cursor to the cell.
    MouseMove(u16, u16),
}

/// An event effect with the key's effect as a view.
pub enum EventEffectView {
    Nothing,
    Send(Action),
    Key(KeyEffectView),
    Scroll(i32),
    MouseMove(u16, u16),
}

impl View for EventEffect {
    type V = EventEffectView;

    open spec fn view(&self) -> EventEffectView {
        match self {
            EventEffect::Nothing => EventEffectView::Nothing,
            EventEffect::Send(a) => EventEffectView::Send(*a),
            EventEffect::Key(k) => EventEffectView::Key(k@),
            EventEffect::Scroll(d) => EventEffectView::Scroll(*d),
            EventEffect::MouseMove(c, r) => EventEffectView::MouseMove(*c, *r),
        }
    }
}

/// The state after a terminal event and what it asks the loop to do: the
/// loop's own events become actions; a key is routed (`route_key`) and a
/// mouse event goes to the selected heatmap tab, each asking for a redraw.
pub open spec fn event_step(s: AppView, ev: TermEvent) -> (AppView, EventEffectView) {
    let heat = s.tabs.selected == Tab::Density || s.tabs.selected == Tab::PhaseSpace;
    match ev {
        TermEvent::Quit => (s, EventEffectView::Send(Action::Quit)),
        TermEvent::Tick => (s, EventEffectView::Send(Action::Tick)),
        TermEvent::Render => (s, EventEffectView::Send(Action::Render)),
        TermEvent::Resize(w, h) => (s, EventEffectView::Send(Action::Resize(w, h))),
        TermEvent::Key(k) => {
            let (s1, e) = route_key(s, k);
            (AppView { needs_redraw: true, ..s1 }, EventEffectView::Key(e))
        },
        TermEvent::ScrollUp => (AppView { needs_redraw: true, ..s }, if heat { EventEffectView::Scroll(-1i32) } else { EventEffectView::Nothing }),
        TermEvent::ScrollDown => (AppView { needs_redraw: true, ..s }, if heat { EventEffectView::Scroll(1i32) } else { EventEffectView::Nothing }),
        TermEvent::MouseMoved(c, r) => (
            AppView { needs_redraw: true, ..s },
            if heat { EventEffectView::MouseMove(c, r) } else { EventEffectView::Nothing },
        ),
        TermEvent::Other => (s, EventEffectView::Nothing),
    }
}

/// What the event loop does after handling the pending actions.
#[derive(Debug, Clone, Copy, PartialEq, Eq, Structural)]
pub enum LoopStep {
    /// Go on.
    Continue,
    /// Suspend the terminal, then send `Resume` and `ClearScreen` and enter it
    /// again.
    Suspend,
    /// Stop the attached simulation (if any), save the session and the
    /// bookmarks, and leave the loop.
    Quit,
}

/// The loop's next step: a suspension comes before quitting.
pub open spec fn loop_step_spec(s: AppView) -> LoopStep {
    if s.should_suspend {
        LoopStep::Suspend
    } else if s.should_quit {
        LoopStep::Quit
    } else {
        LoopStep::Continue
    }
}

/// The appearance settings of a configuration file.
pub struct Appearance {
    pub theme: String,
    pub colormap_default: String,
    pub min_columns: u16,
    pub min_rows: u16,
}

/// What the interface starts with: the theme's and the colormap's names and
/// the minimum terminal size.
pub struct StartupLook {
    pub theme: String,
    pub colormap: String,
    pub guard: TerminalGuard,
}

/// A setting the configuration gives unless it left it at its default, in
/// which case the saved session's value is kept.
pub open spec fn configured_or_saved(configured: Seq<char>, default: Seq<char>, saved: Seq<char>) -> Seq<char> {
    if configured != default {
        configured
    } else {
        saved
    }
}

/// The appearance to start with. With a configuration, its theme and
/// colormap win over the saved session's unless they are the defaults ("dark"
/// and "viridis"), and its minimum terminal size applies; without one, the
/// session's theme and colormap and the 80×24 minimum apply.
pub fn startup_look(appearance: Option<&Appearance>, saved_theme: &str, saved_colormap: &str) -> (l: StartupLook)
    ensures
        match appearance {
            Some(a) => {
                &&& l.theme@ == configured_or_saved(a.theme@, "dark"@, saved_theme@)
                &&& l.colormap@ == configured_or_saved(a.colormap_default@, "viridis"@, saved_colormap@)
                &&& l.guard.min_cols_spec() == a.min_columns
                &&& l.guard.min_rows_spec() == a.min_rows
            },
            None => {
                &&& l.theme@ == saved_theme@
                &&& l.colormap@ == saved_colormap@
                &&& l.guard.min_cols_spec() == 80
                &&& l.guard.min_rows_spec() == 24
            },
        },
{
    match appearance {
        Some(a) => {
            let theme = if !str_eq(a.theme.as_str(), "dark") {
                a.theme.clone()
            } else {
                String::from_str(saved_theme)
            };
            let colormap = if !str_eq(a.colormap_default.as_str(), "viridis") {
                a.colormap_default.clone()
            } else {
                String::from_str(saved_colormap)
            };
            StartupLook { theme, colormap, guard: TerminalGuard::new(a.min_columns, a.min_rows) }
        },
        None => StartupLook {
            theme: String::from_str(saved_theme),
            colormap: String::from_str(saved_colormap),
            guard: TerminalGuard::default(),
        },
    }
}

impl AppState {
    /// The interface at start-up: no overlay shows, the first tab is
    /// selected, no simulation is attached, a redraw is due, and the status
    /// bar names the configuration file ("—" without one).
    pub fn new(config_path: Option<String>, provider: AltProvider) -> (a: AppState)
        ensures
            a@.wf(),
            !a@.quit_confirm,
            !a@.help.visible,
            !a@.export_menu.visible,
            !a@.palette.visible,
            a@.tabs == initial_tabs(opt_chars(config_path)),
            a@.provider == provider,
            !a@.sim_running,
            !a@.sim_paused,
            !a@.should_quit,
            !a@.should_suspend,
            a@.needs_redraw,
            a@.config_path == opt_chars(config_path),
            !a@.bookmark_panel,
            a@.status.config_name == (match config_path {
                Some(p) => file_name(p@),
                None => "—"@,
            }),
            a@.status.scrub_position is None,
            !a@.status.sim_running && !a@.status.sim_done,
    {
        let mut status_bar = StatusBar::new();
        match &config_path {
            Some(p) => status_bar.set_config_name(file_name_of(p.as_str())),
            None => {},
        }
        AppState {
            quit_confirm: false,
            help: HelpOverlay::new(),
            export_menu: ExportMenu::new(),
            command_palette: CommandPalette::new(),
            tab_view: TabView::new(config_path.clone()),
            status_bar,
            provider,
            sim_running: false,
            sim_paused: false,
            should_quit: false,
            should_suspend: false,
            needs_redraw: true,
            config_path,
            mode: Mode::Home,
            bookmark_panel: false,
        }
    }

    /// Handles a terminal event: see `event_step`.
    pub fn handle_event(&mut self, ev: TermEvent) -> (e: EventEffect)
        requires
            old(self)@.wf(),
        ensures
            final(self)@.wf(),
            (final(self)@, e@) == event_step(old(self)@, ev),
    {
        let heat = self.tab_view.selected == Tab::Density || self.tab_view.selected == Tab::PhaseSpace;
        match ev {
            TermEvent::Quit => EventEffect::Send(Action::Quit),
            TermEvent::Tick => EventEffect::Send(Action::Tick),
            TermEvent::Render => EventEffect::Send(Action::Render),
            TermEvent::Resize(w, h) => EventEffect::Send(Action::Resize(w, h)),
            TermEvent::Key(k) => {
                let e = self.handle_key_event(k);
                self.needs_redraw = true;
                EventEffect::Key(e)
            },
            TermEvent::ScrollUp => {
                self.needs_redraw = true;
                if heat { EventEffect::Scroll(-1) } else { EventEffect::Nothing }
            },
            TermEvent::ScrollDown => {
                self.needs_redraw = true;
                if heat { EventEffect::Scroll(1) } else { EventEffect::Nothing }
            },
            TermEvent::MouseMoved(c, r) => {
                self.needs_redraw = true;
                if heat { EventEffect::MouseMove(c, r) } else { EventEffect::Nothing }
            },
            TermEvent::Other => EventEffect::Nothing,
        }
    }

    /// The loop's next step: see `loop_step_spec`.
    pub fn loop_step(&self) -> (l: LoopStep)
        ensures
            l == loop_step_spec(self@),
    {
        if self.should_suspend {
            LoopStep::Suspend
        } else if self.should_quit {
            LoopStep::Quit
        } else {
            LoopStep::Continue
        }
    }

    /// Routes a key press: see `route_key`.
    pub fn handle_key_event(&mut self, key: KeyEvent) -> (e: KeyEffect)
        requires
            old(self)@.wf(),
        ensures
            final(self)@.wf(),
            (final(self)@, e@) == route_key(old(self)@, key),
    {
        let code = key.code;
        // Quit confirmation dialog intercepts all keys when visible
        if self.quit_confirm {
            if code == KeyCode::Char('y') || code == KeyCode::Enter {
                self.quit_confirm = false;
                return KeyEffect::Send(Action::Quit);
            } else if code == KeyCode::Char('n') || code == KeyCode::Esc {
                self.quit_confirm = false;
            }
            return KeyEffect::Nothing;
        }
        // Help overlay intercepts all keys when visible
        if self.help.is_visible() {
            if code == KeyCode::Char('?') || code == KeyCode::Esc {
                self.help.toggle();
            } else if code == KeyCode::Down || code == KeyCode::Char('j') {
                self.help.scroll_down();
            } else if code == KeyCode::Up || code == KeyCode::Char('k') {
                self.help.scroll_up();
            }
            return KeyEffect::Nothing;
        }
        // Export menu intercepts all keys when visible
        if self.export_menu.is_visible() {
            let a = self.export_menu.handle_key_event(key);
            return match a {
                Some(Action::ExportMenuClose) => KeyEffect::Export(self.export_menu.selected_format()),
                _ => KeyEffect::Nothing,
            };
        }
        // Command palette intercepts all keys when visible
        if self.command_palette.is_visible() {
            match self.command_palette.handle_key(key) {
                Ok(Some(cmd)) => return KeyEffect::Execute(cmd),
                _ => return KeyEffect::Nothing,
            }
        }
        self.global_key(key)
    }

    #[verifier::spinoff_prover]
    #[verifier::rlimit(40)]
    fn global_key(&mut self, key: KeyEvent) -> (e: KeyEffect)
        requires
            old(self)@.wf(),
            !old(self)@.quit_confirm,
            !old(self)@.help.visible,
            !old(self)@.export_menu.visible,
            !old(self)@.palette.visible,
        ensures
            final(self)@.wf(),
            (final(self)@, e@) == global_key(old(self)@, key),
    {
        let code = key.code;
        if code == KeyCode::Char('q') {
            // Show confirmation if sim is running
            if self.sim_running && self.status_bar.is_sim_active() {
                self.quit_confirm = true;
                return KeyEffect::Nothing;
            }
            return KeyEffect::Send(Action::Quit);
        }
        if code == KeyCode::Char(' ') {
            // Global pause/resume — works for sim and playback
            if self.provider == AltProvider::Playback {
                return KeyEffect::TogglePlayback;
            } else if self.sim_running {
                return KeyEffect::Send(if self.sim_paused { Action::SimResume } else { Action::SimPause });
            }
            return KeyEffect::Nothing;
        }
        if code == KeyCode::Char('c') && self.provider == AltProvider::Comparison {
            return KeyEffect::CycleComparisonView;
        }
        if code == KeyCode::Char('?') {
            self.help.toggle();
            return KeyEffect::Nothing;
        }
        if code == KeyCode::Char('e') {
            self.export_menu.toggle();
            return KeyEffect::Nothing;
        }
        if code == KeyCode::Char('T') {
            return KeyEffect::Send(Action::ThemeCycle);
        }
        if code == KeyCode::Char('C') {
            return KeyEffect::Send(Action::VizCycleColormap);
        }
        if code == KeyCode::Char(':') {
            self.command_palette.open();
            return KeyEffect::Nothing;
        }
        if code == KeyCode::Char('a') {
            return KeyEffect::AddBookmark;
        }
        if key.ctrl && code == KeyCode::Char('b') {
            self.bookmark_panel = !self.bookmark_panel;
            return KeyEffect::Nothing;
        }
        if key.ctrl && code == KeyCode::Char('s') {
            return KeyEffect::SaveConfig;
        }
        if key.ctrl && code == KeyCode::Char('o') {
            return KeyEffect::Send(Action::SelectTab(0));
        }
        if key.ctrl && code == KeyCode::Char('p') {
            if self.tab_view.selected == Tab::Setup {
                self.tab_view.setup_toggle_presets();
            }
            return KeyEffect::Nothing;
        }
        if key.ctrl && code == KeyCode::Char('d') {
            if self.tab_view.selected == Tab::Setup {
                self.tab_view.setup_reset_defaults();
            }
            return KeyEffect::Nothing;
        }
        if code == KeyCode::Char('/') {
            self.command_palette.open_with("jump ");
            proof {
                reveal_strlit("jump ");
            }
            return KeyEffect::Nothing;
        }
        self.tabs_key(key)
    }

    /// Lets the tabs handle the key; what they pass on is routed further.
    fn tabs_key(&mut self, key: KeyEvent) -> (e: KeyEffect)
        requires
            old(self)@.wf(),
        ensures
            final(self)@.wf(),
            (final(self)@, e@) == tabs_key(old(self)@, key.code),
    {
        match self.tab_view.handle_key_event(key) {
            TabKey::Done(Some(a)) => KeyEffect::Send(a),
            TabKey::Done(None) => KeyEffect::Tab(ViewRequest::Nothing, key_after_tab(self.provider, key)),
            TabKey::Load(p) => KeyEffect::LoadConfig(p, key_after_tab(self.provider, key)),
            TabKey::View(q) => KeyEffect::Tab(q, key_after_tab(self.provider, key)),
        }
    }
}

/// Routes a key that the selected tab passed on: see `after_tab_key`.
pub fn key_after_tab(provider: AltProvider, key: KeyEvent) -> (e: AfterTab)
    ensures
        e == after_tab_key(provider, key.code),
{
    let playback = provider == AltProvider::Playback;
    match key.code {
        KeyCode::Left => AfterTab::Send(Action::ScrubBackward),
        KeyCode::Right => AfterTab::Send(Action::ScrubForward),
        KeyCode::Home => AfterTab::Send(Action::ScrubToStart),
        KeyCode::End => AfterTab::Send(Action::ScrubToEnd),
        KeyCode::Backspace => AfterTab::Send(Action::ScrubToLive),
        KeyCode::Char(c) => {
            if c == '[' {
                AfterTab::Send(Action::ScrubBackward)
            } else if c == ']' {
                AfterTab::Send(Action::ScrubForward)
            } else if c == '{' {
                AfterTab::Send(Action::ScrubJumpBackward)
            } else if c == '}' {
                AfterTab::Send(Action::ScrubJumpForward)
            } else if c == '<' {
                if playback { AfterTab::PlaybackSlower } else { AfterTab::Nothing }
            } else if c == '>' {
                if playback { AfterTab::PlaybackFaster } else { AfterTab::Nothing }
            } else if c == ',' {
                if playback { AfterTab::PlaybackStepBackward } else { AfterTab::Nothing }
            } else if c == '.' {
                if playback { AfterTab::PlaybackStepForward } else { AfterTab::Nothing }
            } else {
                AfterTab::Keymap
            }
        },
        _ => AfterTab::Keymap,
    }
}

} // verus!

verus! {

/// A move through the recorded history of a run.
#[derive(Clone, Copy, Debug, PartialEq, Eq, Structural)]
pub enum ScrubOp {
    Backward,
    Forward,
    /// Back by the given number of snapshots.
    JumpBackward(usize),
    /// Forward by the given number of snapshots.
    JumpForward(usize),
    ToStart,
    ToEnd,
    ToLive,
}

/// What the event loop does for an action beyond the state changes that the
/// library makes itself.
#[derive(Debug)]
pub enum ActionEffect {
    /// Forget the keys collected during the last tick.
    ClearKeySequence,
    /// Clear the terminal.
    ClearScreen,
    /// Resize the terminal's buffers.
    Resize(u16, u16),
    /// Draw the interface.
    Render,
    /// Load the configuration file into the live data provider.
    LoadConfig(String),
    /// Tell the attached simulation to stop.
    StopSim,
    /// Tell the attached simulation to pause.
    PauseSim,
    /// Tell the attached simulation to resume.
    ResumeSim,
    /// Clear the live data provider's history of the previous run.
    ResetData,
    /// Start a simulation of the configuration file and show its progress.
    SpawnSim(String),
    /// Stop showing the simulation's step progress.
    ClearStepProgress,
    /// Hand the update to the live data provider, and time the step when the
    /// status bar says so.
    UpdateData(StepNotice),
    /// Notify that the run ended.
    NotifyExit,
    /// Scrub the active data provider, then show its scrub position.
    Scrub(ScrubOp),
    /// Take the colormap chosen in the Settings tab.
    ColormapFromSettings,
    /// Move to the next colormap.
    CycleColormap,
    /// Take the theme chosen in the Settings tab.
    ThemeFromSettings,
    /// Move to the next theme.
    CycleTheme,
    /// The Performance tab forgets the previous run.
    ResetPerformance,
}

/// An action effect with its paths as character sequences.
pub enum ActionEffectView {
    ClearKeySequence,
    ClearScreen,
    Resize(u16, u16),
    Render,
    LoadConfig(Seq<char>),
    StopSim,
    PauseSim,
    ResumeSim,
    ResetData,
    SpawnSim(Seq<char>),
    ClearStepProgress,
    UpdateData(StepNotice),
    NotifyExit,
    Scrub(ScrubOp),
    ColormapFromSettings,
    CycleColormap,
    ThemeFromSettings,
    CycleTheme,
    ResetPerformance,
}

impl View for ActionEffect {
    type V = ActionEffectView;

    open spec fn view(&self) -> ActionEffectView {
        match self {
            ActionEffect::ClearKeySequence => ActionEffectView::ClearKeySequence,
            ActionEffect::ClearScreen => ActionEffectView::ClearScreen,
            ActionEffect::Resize(w, h) => ActionEffectView::Resize(*w, *h),
            ActionEffect::Render => ActionEffectView::Render,
            ActionEffect::LoadConfig(p) => ActionEffectView::LoadConfig(p@),
            ActionEffect::StopSim => ActionEffectView::StopSim,
            ActionEffect::PauseSim => ActionEffectView::PauseSim,
            ActionEffect::ResumeSim => ActionEffectView::ResumeSim,
            ActionEffect::ResetData => ActionEffectView::ResetData,
            ActionEffect::SpawnSim(p) => ActionEffectView::SpawnSim(p@),
            ActionEffect::ClearStepProgress => ActionEffectView::ClearStepProgress,
            ActionEffect::UpdateData(n) => ActionEffectView::UpdateData(*n),
            ActionEffect::NotifyExit => ActionEffectView::NotifyExit,
            ActionEffect::Scrub(o) => ActionEffectView::Scrub(*o),
            ActionEffect::ColormapFromSettings => ActionEffectView::ColormapFromSettings,
            ActionEffect::CycleColormap => ActionEffectView::CycleColormap,
            ActionEffect::ThemeFromSettings => ActionEffectView::ThemeFromSettings,
            ActionEffect::CycleTheme => ActionEffectView::CycleTheme,
            ActionEffect::ResetPerformance => ActionEffectView::ResetPerformance,
        }
    }
}

/// The views of a sequence of effects.
pub open spec fn effect_views(v: Seq<ActionEffect>) -> Seq<ActionEffectView> {
    v.map_values(|e: ActionEffect| e@)
}

/// How many snapshots a jump scrubs over.
pub const SCRUB_JUMP: usize = 10;

/// Starting a simulation: any attached one is stopped, the history is
/// cleared, and when a configuration is loaded a new run is spawned.
pub open spec fn start_sim(s: AppView) -> (AppView, Seq<ActionEffectView>) {
    let stop: Seq<ActionEffectView> = if s.sim_running { seq![ActionEffectView::StopSim] } else { seq![] };
    match s.config_path {
        Some(p) => (
            AppView { sim_running: true, sim_paused: false, status: started(s.status), ..s },
            stop + seq![ActionEffectView::ResetData, ActionEffectView::SpawnSim(p)],
        ),
        None => (AppView { sim_running: false, ..s }, stop + seq![ActionEffectView::ResetData]),
    }
}

/// The state after an action and what it asks the loop to do, before the
/// tab selection follows the action.
pub open spec fn app_action_step(s: AppView, a: Action) -> (AppView, Seq<ActionEffectView>) {
    match a {
        Action::Tick => (s, seq![ActionEffectView::ClearKeySequence]),
        Action::Quit => (AppView { should_quit: true, ..s }, seq![]),
        Action::Suspend => (AppView { should_suspend: true, ..s }, seq![]),
        Action::Resume => (AppView { should_suspend: false, ..s }, seq![]),
        Action::ClearScreen => (s, seq![ActionEffectView::ClearScreen]),
        Action::Resize(w, h) => (AppView { needs_redraw: true, ..s }, seq![ActionEffectView::Resize(w, h)]),
        Action::Render => if s.needs_redraw || s.sim_running {
            (AppView { needs_redraw: false, ..s }, seq![ActionEffectView::Render])
        } else {
            (s, seq![])
        },
        Action::ConfigLoaded(path) => (
            AppView {
                config_path: Some(path@),
                status: StatusBarView { config_name: file_name(path@), ..s.status },
                ..s
            },
            seq![ActionEffectView::LoadConfig(path@)],
        ),
        Action::SimStart => start_sim(s),
        Action::SimStop => (
            AppView { sim_running: false, sim_paused: false, status: stopped(s.status), ..s },
            (if s.sim_running { seq![ActionEffectView::StopSim] } else { seq![] }) + seq![ActionEffectView::ClearStepProgress],
        ),
        Action::SimPause => (
            AppView { sim_paused: true, status: paused(s.status), ..s },
            if s.sim_running { seq![ActionEffectView::PauseSim] } else { seq![] },
        ),
        Action::SimResume => (
            AppView { sim_paused: false, status: resumed(s.status), ..s },
            if s.sim_running { seq![ActionEffectView::ResumeSim] } else { seq![] },
        ),
        Action::SimRestart => {
            let stop: Seq<ActionEffectView> = if s.sim_running { seq![ActionEffectView::StopSim] } else { seq![] };
            let (s2, e2) = start_sim(
                AppView { sim_running: false, sim_paused: false, status: stopped(s.status), ..s },
            );
            (s2, stop + e2)
        },
        Action::SimUpdate(st) => {
            let notice = StepNotice { new_step: st.step != s.status.last_step, refresh_rss: st.step % 10 == 0 };
            (
                AppView {
                    status: updated(s.status, st),
                    needs_redraw: true,
                    sim_running: if st.exited() { false } else { s.sim_running },
                    ..s
                },
                seq![ActionEffectView::UpdateData(notice)] + if st.exited() { seq![ActionEffectView::NotifyExit] } else { seq![] },
            )
        },
        Action::ScrubBackward => (s, seq![ActionEffectView::Scrub(ScrubOp::Backward)]),
        Action::ScrubForward => (s, seq![ActionEffectView::Scrub(ScrubOp::Forward)]),
        Action::ScrubJumpBackward => (s, seq![ActionEffectView::Scrub(ScrubOp::JumpBackward(SCRUB_JUMP))]),
        Action::ScrubJumpForward => (s, seq![ActionEffectView::Scrub(ScrubOp::JumpForward(SCRUB_JUMP))]),
        Action::ScrubToStart => (s, seq![ActionEffectView::Scrub(ScrubOp::ToStart)]),
        Action::ScrubToEnd => (s, seq![ActionEffectView::Scrub(ScrubOp::ToEnd)]),
        Action::ScrubToLive => (
            AppView { status: StatusBarView { scrub_position: None, ..s.status }, ..s },
            seq![ActionEffectView::Scrub(ScrubOp::ToLive)],
        ),
        Action::VizCycleColormap => (
            s,
            if s.tabs.selected == Tab::Settings { seq![ActionEffectView::ColormapFromSettings] } else { seq![ActionEffectView::CycleColormap] },
        ),
        Action::ThemeCycle => (
            s,
            if s.tabs.selected == Tab::Settings { seq![ActionEffectView::ThemeFromSettings] } else { seq![ActionEffectView::CycleTheme] },
        ),
        _ => (s, seq![]),
    }
}

/// The full step: the application's own handling, then the tabs follow the
/// action and a new run resets the Performance tab's history.
pub open spec fn action_step(s: AppView, a: Action) -> (AppView, Seq<ActionEffectView>) {
    let (s1, e1) = app_action_step(s, a);
    let reset: Seq<ActionEffectView> = if a == Action::SimStart || a == Action::SimRestart {
        seq![ActionEffectView::ResetPerformance]
    } else {
        seq![]
    };
    (AppView { tabs: tab_action_step(s1.tabs, a), ..s1 }, e1 + reset)
}

/// The stem of an export's name: the configuration file's name without
/// ".toml" ("phasma" when there is none, or it does not end so), an
/// underscore, and the time stamp.
pub open spec fn export_stem_spec(config_path: Option<Seq<char>>, timestamp: Seq<char>) -> Seq<char> {
    let name = match config_path {
        Some(p) => match strip_suffix(file_name(p), ".toml"@) {
            Some(n) => n,
            None => "phasma"@,
        },
        None => "phasma"@,
    };
    name + "_"@ + timestamp
}

impl AppState {
    fn start_sim(&mut self, effects: &mut Vec<ActionEffect>)
        ensures
            final(self)@ == start_sim(old(self)@).0,
            effect_views(final(effects)@) == effect_views(old(effects)@) + start_sim(old(self)@).1,
            final(self).mode == old(self).mode,
            final(self).tab_view == old(self).tab_view,
            final(self)@.wf() == old(self)@.wf(),
    {
        let ghost e0 = effect_views(effects@);
        let ghost s0 = self@;
        if self.sim_running {
            effects.push(ActionEffect::StopSim);
            self.sim_running = false;
        }
        effects.push(ActionEffect::ResetData);
        match &self.config_path {
            Some(p) => {
                effects.push(ActionEffect::SpawnSim(p.clone()));
                self.sim_running = true;
                self.sim_paused = false;
                self.status_bar.on_sim_start();
            },
            None => {},
        }
        proof {
            let stop: Seq<ActionEffectView> = if s0.sim_running { seq![ActionEffectView::StopSim] } else { seq![] };
            match s0.config_path {
                Some(p) => {
                    assert(effect_views(effects@) =~= e0 + (stop + seq![ActionEffectView::ResetData, ActionEffectView::SpawnSim(p)]));
                },
                None => {
                    assert(effect_views(effects@) =~= e0 + (stop + seq![ActionEffectView::ResetData]));
                },
            }
        }
    }

    /// Applies an action: see `action_step`. The effects come in the order
    /// the loop performs them.
    pub fn handle_action(&mut self, action: &Action) -> (effects: Vec<ActionEffect>)
        requires
            old(self)@.wf(),
        ensures
            final(self)@.wf(),
            (final(self)@, effect_views(effects@)) == action_step(old(self)@, *action),
    {
        let ghost s0 = self@;
        let mut effects = self.app_action(action);
        let ghost e1 = effect_views(effects@);
        // Forward to the tab view
        self.tab_view.update(action);
        match action {
            Action::SimStart | Action::SimRestart => {
                effects.push(ActionEffect::ResetPerformance);
                assert(effect_views(effects@) =~= e1 + seq![ActionEffectView::ResetPerformance]);
            },
            _ => {
                assert(effect_views(effects@) =~= e1 + seq![]);
            },
        }
        effects
    }

    fn push_effect(effects: &mut Vec<ActionEffect>, e: ActionEffect)
        ensures
            effect_views(final(effects)@) == effect_views(old(effects)@).push(e@),
    {
        effects.push(e);
        assert(effect_views(effects@) =~= effect_views(old(effects)@).push(e@));
    }

    #[verifier::spinoff_prover]
    #[verifier::rlimit(80)]
    fn app_action(&mut self, action: &Action) -> (effects: Vec<ActionEffect>)
        requires
            old(self)@.wf(),
        ensures
            final(self)@.wf(),
            (final(self)@, effect_views(effects@)) == app_action_step(old(self)@, *action),
            final(self).tab_view == old(self).tab_view,
    {
        let mut effects: Vec<ActionEffect> = Vec::new();
        assert(effect_views(effects@) =~= seq![]);
        match action {
            Action::Tick => {
                Self::push_effect(&mut effects, ActionEffect::ClearKeySequence);
            },
            Action::Quit => {
                self.should_quit = true;
            },
            Action::Suspend => {
                self.should_suspend = true;
            },
            Action::Resume => {
                self.should_suspend = false;
            },
            Action::ClearScreen => {
                Self::push_effect(&mut effects, ActionEffect::ClearScreen);
            },
            Action::Resize(w, h) => {
                Self::push_effect(&mut effects, ActionEffect::Resize(*w, *h));
                self.needs_redraw = true;
            },
            Action::Render => {
                // Redraw continuously while a simulation runs.
                if self.sim_running {
                    self.needs_redraw = true;
                }
                if self.needs_redraw {
                    Self::push_effect(&mut effects, ActionEffect::Render);
                    self.needs_redraw = false;
                }
            },
            Action::ConfigLoaded(path) => {
                self.config_path = Some(path.clone());
                let name = file_name_of(path.as_str());
                self.status_bar.set_config_name(name);
                Self::push_effect(&mut effects, ActionEffect::LoadConfig(path.clone()));
            },
            Action::SimStart | Action::SimStop | Action::SimPause | Action::SimResume | Action::SimRestart => {
                self.sim_control(action, &mut effects);
            },
            Action::SimUpdate(st) => {
                let notice = self.status_bar.on_state_update(st);
                Self::push_effect(&mut effects, ActionEffect::UpdateData(notice));
                self.needs_redraw = true;
                if st.has_exited() {
                    Self::push_effect(&mut effects, ActionEffect::NotifyExit);
                    self.sim_running = false;
                }
                assert(effect_views(effects@) =~= app_action_step(old(self)@, *action).1);
            },
            Action::ScrubBackward => {
                Self::push_effect(&mut effects, ActionEffect::Scrub(ScrubOp::Backward));
            },
            Action::ScrubForward => {
                Self::push_effect(&mut effects, ActionEffect::Scrub(ScrubOp::Forward));
            },
            Action::ScrubJumpBackward => {
                Self::push_effect(&mut effects, ActionEffect::Scrub(ScrubOp::JumpBackward(SCRUB_JUMP)));
            },
            Action::ScrubJumpForward => {
                Self::push_effect(&mut effects, ActionEffect::Scrub(ScrubOp::JumpForward(SCRUB_JUMP)));
            },
            Action::ScrubToStart => {
                Self::push_effect(&mut effects, ActionEffect::Scrub(ScrubOp::ToStart));
            },
            Action::ScrubToEnd => {
                Self::push_effect(&mut effects, ActionEffect::Scrub(ScrubOp::ToEnd));
            },
            Action::ScrubToLive => {
                Self::push_effect(&mut effects, ActionEffect::Scrub(ScrubOp::ToLive));
                self.status_bar.set_scrub_position(None);
            },
            Action::VizCycleColormap => {
                // The Settings tab chose the colormap itself; elsewhere cycle.
                if self.tab_view.selected == Tab::Settings {
                    Self::push_effect(&mut effects, ActionEffect::ColormapFromSettings);
                } else {
                    Self::push_effect(&mut effects, ActionEffect::CycleColormap);
                }
            },
            Action::ThemeCycle => {
                if self.tab_view.selected == Tab::Settings {
                    Self::push_effect(&mut effects, ActionEffect::ThemeFromSettings);
                } else {
                    Self::push_effect(&mut effects, ActionEffect::CycleTheme);
                }
            },
            _ => {},
        }
        effects
    }

    #[verifier::rlimit(40)]
    fn sim_control(&mut self, action: &Action, effects: &mut Vec<ActionEffect>)
        requires
            old(self)@.wf(),
            effect_views(old(effects)@) == Seq::<ActionEffectView>::empty(),
            *action == Action::SimStart || *action == Action::SimStop || *action == Action::SimPause
                || *action == Action::SimResume || *action == Action::SimRestart,
        ensures
            final(self)@.wf(),
            (final(self)@, effect_views(final(effects)@)) == app_action_step(old(self)@, *action),
            final(self).tab_view == old(self).tab_view,
    {
        match action {
            Action::SimStart => {
                self.start_sim(effects);
                assert(effect_views(effects@) =~= start_sim(old(self)@).1);
            },
            Action::SimStop => {
                if self.sim_running {
                    Self::push_effect(effects, ActionEffect::StopSim);
                }
                self.sim_running = false;
                self.sim_paused = false;
                Self::push_effect(effects, ActionEffect::ClearStepProgress);
                self.status_bar.on_sim_stop();
                assert(effect_views(effects@) =~= app_action_step(old(self)@, *action).1);
            },
            Action::SimPause => {
                if self.sim_running {
                    Self::push_effect(effects, ActionEffect::PauseSim);
                }
                self.sim_paused = true;
                self.status_bar.on_sim_pause();
                assert(effect_views(effects@) =~= app_action_step(old(self)@, *action).1);
            },
            Action::SimResume => {
                if self.sim_running {
                    Self::push_effect(effects, ActionEffect::ResumeSim);
                }
                self.sim_paused = false;
                self.status_bar.on_sim_resume();
                assert(effect_views(effects@) =~= app_action_step(old(self)@, *action).1);
            },
            _ => {
                let ghost s0 = self@;
                if self.sim_running {
                    Self::push_effect(effects, ActionEffect::StopSim);
                }
                let ghost e0 = effect_views(effects@);
                self.sim_running = false;
                self.sim_paused = false;
                self.status_bar.on_sim_stop();
                self.start_sim(effects);
                assert(effect_views(effects@) =~= app_action_step(s0, *action).1);
            },
        }
    }

    /// The stem of an export's name for a time stamp: see `export_stem_spec`.
    pub fn export_stem(&self, timestamp: &str) -> (s: String)
        ensures
            s@ == export_stem_spec(self@.config_path, timestamp@),
    {
        let name = match &self.config_path {
            Some(p) => {
                let f = file_name_of(p.as_str());
                match strip_suffix_of(f.as_str(), ".toml") {
                    Some(n) => n,
                    None => String::from_str("phasma"),
                }
            },
            None => String::from_str("phasma"),
        };
        let s = name.concat("_");
        s.concat(timestamp)
    }
}

} // verus!

verus! {

/// No overlay shows.
pub open spec fn no_overlay(s: AppView) -> bool {
    !s.quit_confirm && !s.help.visible && !s.export_menu.visible && !s.palette.visible
}

/// While the quit confirmation shows, a key changes nothing but the
/// confirmation itself; `y` or Enter quits, and nothing else is asked for.
pub proof fn lemma_confirmation_intercepts(s: AppView, key: KeyEvent)
    requires
        s.quit_confirm,
    ensures
        route_key(s, key).0 == (AppView { quit_confirm: route_key(s, key).0.quit_confirm, ..s }),
        route_key(s, key).1 == KeyEffectView::Send(Action::Quit) || route_key(s, key).1 == KeyEffectView::Nothing,
        (key.code == KeyCode::Char('y') || key.code == KeyCode::Enter) ==> route_key(s, key).1 == KeyEffectView::Send(Action::Quit),
{
}

/// `q` never quits while an attached simulation is active: it asks for
/// confirmation instead. Without an active simulation it quits at once.
pub proof fn lemma_quit_asks_while_active(s: AppView)
    requires
        no_overlay(s),
    ensures
        s.sim_running && active(s.status) ==> route_key(s, KeyEvent { code: KeyCode::Char('q'), ctrl: false }).0.quit_confirm
            && route_key(s, KeyEvent { code: KeyCode::Char('q'), ctrl: false }).1 == KeyEffectView::Nothing,
        !(s.sim_running && active(s.status)) ==> route_key(s, KeyEvent { code: KeyCode::Char('q'), ctrl: false }).1
            == KeyEffectView::Send(Action::Quit),
{
}

/// Space pauses a running live simulation and resumes a paused one.
pub proof fn lemma_space_toggles_pause(s: AppView)
    requires
        no_overlay(s),
        s.provider != AltProvider::Playback,
        s.sim_running,
    ensures
        route_key(s, KeyEvent { code: KeyCode::Char(' '), ctrl: false }).1
            == KeyEffectView::Send(if s.sim_paused { Action::SimResume } else { Action::SimPause }),
{
}

/// Starting a simulation with a configuration loaded attaches a running,
/// unpaused, active simulation, shows the Run Control tab, and asks for the
/// old run to be stopped (if any), the history to be cleared, the new run to
/// be spawned and the Performance tab to be reset, in that order.
pub proof fn lemma_start_with_config(s: AppView, p: Seq<char>)
    requires
        s.config_path == Some(p),
    ensures
        action_step(s, Action::SimStart).0.sim_running,
        !action_step(s, Action::SimStart).0.sim_paused,
        active(action_step(s, Action::SimStart).0.status),
        action_step(s, Action::SimStart).0.tabs.selected == Tab::RunControl,
        action_step(s, Action::SimStart).1 == (if s.sim_running { seq![ActionEffectView::StopSim] } else { seq![] })
            + seq![ActionEffectView::ResetData, ActionEffectView::SpawnSim(p), ActionEffectView::ResetPerformance],
{
}

/// Without a configuration, starting only stops and clears: no simulation
/// is attached afterwards.
pub proof fn lemma_start_without_config(s: AppView)
    requires
        s.config_path is None,
    ensures
        !action_step(s, Action::SimStart).0.sim_running,
{
}

/// Pausing and then resuming an active simulation leaves it active again.
pub proof fn lemma_pause_then_resume(s: AppView)
    requires
        active(s.status),
    ensures
        action_step(s, Action::SimPause).0.sim_paused,
        !active(action_step(s, Action::SimPause).0.status),
        !action_step(action_step(s, Action::SimPause).0, Action::SimResume).0.sim_paused,
        active(action_step(action_step(s, Action::SimPause).0, Action::SimResume).0.status),
{
}

/// An update that reports the end of the run detaches the simulation, makes
/// the status inactive, and asks for a notification after the data update.
pub proof fn lemma_exit_update_detaches(s: AppView, st: SimStatus)
    requires
        st.exited(),
    ensures
        !action_step(s, Action::SimUpdate(st)).0.sim_running,
        !active(action_step(s, Action::SimUpdate(st)).0.status),
        action_step(s, Action::SimUpdate(st)).1.last() == ActionEffectView::NotifyExit,
{
}

/// A render draws exactly when a redraw is due or a simulation runs, and
/// afterwards no redraw is due.
pub proof fn lemma_render_once(s: AppView)
    ensures
        !action_step(s, Action::Render).0.needs_redraw,
        action_step(s, Action::Render).1 == (if s.needs_redraw || s.sim_running { seq![ActionEffectView::Render] } else { seq![] }),
{
}

/// With no overlay showing, F1 to F10 select the n-th tab, whichever tab is
/// selected.
pub proof fn lemma_function_keys_switch_tabs(s: AppView, n: u8, ctrl: bool)
    requires
        no_overlay(s),
        1 <= n <= 10,
    ensures
        route_key(s, KeyEvent { code: KeyCode::F(n), ctrl }).1 == KeyEffectView::Send(Action::SelectTab((n - 1) as usize)),
        route_key(s, KeyEvent { code: KeyCode::F(n), ctrl }).0 == s,
{
}

/// With no overlay showing, Backspace returns to the live state whichever tab
/// is selected, and the action clears the scrub position.
pub proof fn lemma_backspace_goes_live(s: AppView, ctrl: bool)
    requires
        no_overlay(s),
    ensures
        route_key(s, KeyEvent { code: KeyCode::Backspace, ctrl }).1
            == KeyEffectView::Tab(ViewRequest::Nothing, AfterTab::Send(Action::ScrubToLive)),
        action_step(s, Action::ScrubToLive).0.status.scrub_position is None,
{
}

/// While the help overlay, the export menu or the command palette shows, a
/// key sends no action: it is used up, or it exports, or it runs a command.
pub proof fn lemma_overlays_take_keys(s: AppView, key: KeyEvent)
    requires
        !s.quit_confirm,
        s.help.visible || s.export_menu.visible || s.palette.visible,
    ensures
        route_key(s, key).1 matches KeyEffectView::Nothing || route_key(s, key).1 matches KeyEffectView::Export(_)
            || route_key(s, key).1 matches KeyEffectView::Execute(_),
        s.help.visible ==> route_key(s, key).1 == KeyEffectView::Nothing,
{
}

/// With no overlay showing, `?` shows the help, `e` the export menu, `:` an
/// empty command palette and `/` the palette with "jump " typed.
pub proof fn lemma_global_overlay_keys(s: AppView)
    requires
        no_overlay(s),
    ensures
        route_key(s, KeyEvent { code: KeyCode::Char('?'), ctrl: false }).0.help.visible,
        route_key(s, KeyEvent { code: KeyCode::Char('e'), ctrl: false }).0.export_menu.visible,
        route_key(s, KeyEvent { code: KeyCode::Char(':'), ctrl: false }).0.palette
            == (CommandPaletteView { visible: true, input: Seq::empty(), cursor: 0 }),
        route_key(s, KeyEvent { code: KeyCode::Char('/'), ctrl: false }).0.palette
            == (CommandPaletteView { visible: true, input: "jump "@, cursor: 5 }),
{
}

/// On the heatmap tabs `c` cycles the colormap, unless two runs are being
/// compared, when it cycles the comparison.
pub proof fn lemma_c_on_heatmap_tabs(s: AppView)
    requires
        no_overlay(s),
        s.tabs.selected == Tab::Density || s.tabs.selected == Tab::PhaseSpace,
    ensures
        s.provider == AltProvider::Comparison ==> route_key(s, KeyEvent { code: KeyCode::Char('c'), ctrl: false }).1
            == KeyEffectView::CycleComparisonView,
        s.provider != AltProvider::Comparison ==> route_key(s, KeyEvent { code: KeyCode::Char('c'), ctrl: false }).1
            == KeyEffectView::Send(Action::VizCycleColormap),
{
}

/// With no overlay showing, Ctrl+O asks for the Setup tab, and the action
/// selects it.
pub proof fn lemma_ctrl_o_opens_setup(s: AppView)
    requires
        no_overlay(s),
    ensures
        route_key(s, KeyEvent { code: KeyCode::Char('o'), ctrl: true }).1 == KeyEffectView::Send(Action::SelectTab(0)),
        action_step(s, Action::SelectTab(0)).0.tabs.selected == Tab::Setup,
{
}

/// With no overlay showing, Ctrl+B shows or hides the bookmark panel and
/// changes nothing else; pressed twice, it leaves the interface as it was.
pub proof fn lemma_ctrl_b_toggles_bookmarks(s: AppView)
    requires
        no_overlay(s),
    ensures
        route_key(s, KeyEvent { code: KeyCode::Char('b'), ctrl: true }) == (
            AppView { bookmark_panel: !s.bookmark_panel, ..s },
            KeyEffectView::Nothing,
        ),
        route_key(route_key(s, KeyEvent { code: KeyCode::Char('b'), ctrl: true }).0, KeyEvent { code: KeyCode::Char('b'), ctrl: true }).0 == s,
{
}

/// Where a scrub move takes the shown snapshot: by a number of snapshots
/// (back when negative), to the first or the last snapshot recorded, or back
/// to the live state.
pub enum ScrubTarget {
    By(int),
    First,
    Last,
    Live,
}

/// What each scrub move does to the shown snapshot.
pub open spec fn scrub_target(op: ScrubOp) -> ScrubTarget {
    match op {
        ScrubOp::Backward => ScrubTarget::By(-1),
        ScrubOp::Forward => ScrubTarget::By(1),
        ScrubOp::JumpBackward(k) => ScrubTarget::By(-(k as int)),
        ScrubOp::JumpForward(k) => ScrubTarget::By(k as int),
        ScrubOp::ToStart => ScrubTarget::First,
        ScrubOp::ToEnd => ScrubTarget::Last,
        ScrubOp::ToLive => ScrubTarget::Live,
    }
}

/// The scrub move an action makes, when handling it asks the loop for one
/// scrub and nothing else.
pub open spec fn action_scrub(s: AppView, a: Action) -> Option<ScrubTarget> {
    let e = action_step(s, a).1;
    if e.len() == 1 {
        match e[0] {
            ActionEffectView::Scrub(op) => Some(scrub_target(op)),
            _ => None,
        }
    } else {
        None
    }
}

/// The scrub move a key makes when the selected tab passes it on.
pub open spec fn key_scrub(s: AppView, code: KeyCode) -> Option<ScrubTarget> {
    match after_tab_key(s.provider, code) {
        AfterTab::Send(a) => action_scrub(s, a),
        _ => None,
    }
}

/// Each scrub action moves the shown snapshot as its name says, in every
/// state: one snapshot back or forward, `SCRUB_JUMP` snapshots back or
/// forward, to the first or last snapshot, or to the live state. The two
/// steps and the two jumps are opposite moves.
pub proof fn lemma_scrub_actions(s: AppView)
    ensures
        action_scrub(s, Action::ScrubBackward) == Some(ScrubTarget::By(-1)),
        action_scrub(s, Action::ScrubForward) == Some(ScrubTarget::By(1)),
        action_scrub(s, Action::ScrubJumpBackward) == Some(ScrubTarget::By(-(SCRUB_JUMP as int))),
        action_scrub(s, Action::ScrubJumpForward) == Some(ScrubTarget::By(SCRUB_JUMP as int)),
        action_scrub(s, Action::ScrubToStart) == Some(ScrubTarget::First),
        action_scrub(s, Action::ScrubToEnd) == Some(ScrubTarget::Last),
        action_scrub(s, Action::ScrubToLive) == Some(ScrubTarget::Live),
{
}

/// Keys that a tab passes on scrub the history in every state and with
/// every data source: Left and `[` go one snapshot back, Right and `]` one
/// forward, `{` and `}` jump `SCRUB_JUMP` back and forward (opposite moves
/// of the same size), Home and End go to the first and last snapshot, and
/// Backspace returns to the live state.
pub proof fn lemma_scrub_keys(s: AppView)
    ensures
        key_scrub(s, KeyCode::Left) == Some(ScrubTarget::By(-1)),
        key_scrub(s, KeyCode::Char('[')) == Some(ScrubTarget::By(-1)),
        key_scrub(s, KeyCode::Right) == Some(ScrubTarget::By(1)),
        key_scrub(s, KeyCode::Char(']')) == Some(ScrubTarget::By(1)),
        key_scrub(s, KeyCode::Char('{')) == Some(ScrubTarget::By(-(SCRUB_JUMP as int))),
        key_scrub(s, KeyCode::Char('}')) == Some(ScrubTarget::By(SCRUB_JUMP as int)),
        key_scrub(s, KeyCode::Home) == Some(ScrubTarget::First),
        key_scrub(s, KeyCode::End) == Some(ScrubTarget::Last),
        key_scrub(s, KeyCode::Backspace) == Some(ScrubTarget::Live),
{
    lemma_scrub_actions(s);
}

} // verus!
