use phasma::action::{Action, SimStatus};
use phasma::app::{
    key_after_tab, startup_look, ActionEffect, AfterTab, AltProvider, AppState, Appearance, EventEffect, KeyEffect, LoopStep,
    ScrubOp, TermEvent,
};
use phasma::tabs::controls::ViewRequest;
use phasma::command_palette::Command;
use phasma::export_menu::ExportFormat;
use phasma::keys::{KeyCode, KeyEvent};
use phasma::tabs::Tab;

fn key(c: KeyCode) -> KeyEvent {
    KeyEvent::plain(c)
}

fn ch(c: char) -> KeyEvent {
    KeyEvent::plain(KeyCode::Char(c))
}

fn app() -> AppState {
    AppState::new(Some("configs/plummer.toml".to_string()), AltProvider::Live)
}

fn running_app() -> AppState {
    let mut a = app();
    a.handle_action(&Action::SimStart);
    a
}

#[test]
fn quit_without_sim_is_immediate() {
    let mut a = app();
    assert!(matches!(a.handle_key_event(ch('q')), KeyEffect::Send(Action::Quit)));
    assert!(!a.quit_confirm);
}

#[test]
fn quit_with_active_sim_asks_first() {
    let mut a = running_app();
    assert!(a.sim_running);
    assert!(a.status_bar.is_sim_active());
    assert!(matches!(a.handle_key_event(ch('q')), KeyEffect::Nothing));
    assert!(a.quit_confirm);
    // Other keys are swallowed by the dialog.
    assert!(matches!(a.handle_key_event(ch('?')), KeyEffect::Nothing));
    assert!(!a.help.is_visible());
    assert!(a.quit_confirm);
    assert!(matches!(a.handle_key_event(ch('n')), KeyEffect::Nothing));
    assert!(!a.quit_confirm);
    a.handle_key_event(ch('q'));
    assert!(matches!(a.handle_key_event(key(KeyCode::Enter)), KeyEffect::Send(Action::Quit)));
    assert!(!a.quit_confirm);
}

#[test]
fn help_overlay_takes_keys() {
    let mut a = app();
    a.handle_key_event(ch('?'));
    assert!(a.help.is_visible());
    a.handle_key_event(ch('j'));
    a.handle_key_event(key(KeyCode::Down));
    assert_eq!(a.help.scroll(), 2);
    a.handle_key_event(ch('k'));
    assert_eq!(a.help.scroll(), 1);
    assert!(matches!(a.handle_key_event(ch('q')), KeyEffect::Nothing));
    a.handle_key_event(key(KeyCode::Esc));
    assert!(!a.help.is_visible());
    assert_eq!(a.help.scroll(), 0);
}

#[test]
fn export_menu_routes_to_export() {
    let mut a = app();
    a.handle_key_event(ch('e'));
    assert!(a.export_menu.is_visible());
    a.handle_key_event(key(KeyCode::Down));
    assert!(matches!(a.handle_key_event(key(KeyCode::Enter)), KeyEffect::Export(ExportFormat::Csv)));
    assert!(!a.export_menu.is_visible());
    a.handle_key_event(ch('e'));
    assert!(matches!(a.handle_key_event(ch('1')), KeyEffect::Export(ExportFormat::Screenshot)));
    a.handle_key_event(ch('e'));
    assert!(matches!(a.handle_key_event(ch('8')), KeyEffect::Export(ExportFormat::Markdown)));
    a.handle_key_event(ch('e'));
    assert!(matches!(a.handle_key_event(key(KeyCode::Esc)), KeyEffect::Nothing));
    assert!(!a.export_menu.is_visible());
}

#[test]
fn palette_runs_commands() {
    let mut a = app();
    a.handle_key_event(ch(':'));
    assert!(a.command_palette.is_visible());
    for c in "cmap magma".chars() {
        assert!(matches!(a.handle_key_event(ch(c)), KeyEffect::Nothing));
    }
    match a.handle_key_event(key(KeyCode::Enter)) {
        KeyEffect::Execute(Command::SetColormap(n)) => assert_eq!(n, "magma"),
        other => panic!("unexpected {other:?}"),
    }
    assert!(!a.command_palette.is_visible());
}

#[test]
fn slash_opens_jump_prompt() {
    let mut a = app();
    a.handle_key_event(ch('/'));
    assert_eq!(a.command_palette.input(), "jump ");
    for c in "12.5".chars() {
        a.handle_key_event(ch(c));
    }
    match a.handle_key_event(key(KeyCode::Enter)) {
        KeyEffect::Execute(Command::JumpToTime(t)) => assert_eq!(t, "12.5"),
        other => panic!("unexpected {other:?}"),
    }
}

#[test]
fn space_pauses_and_resumes() {
    let mut a = app();
    assert!(matches!(a.handle_key_event(ch(' ')), KeyEffect::Nothing));
    let mut a = running_app();
    assert!(matches!(a.handle_key_event(ch(' ')), KeyEffect::Send(Action::SimPause)));
    a.handle_action(&Action::SimPause);
    assert!(matches!(a.handle_key_event(ch(' ')), KeyEffect::Send(Action::SimResume)));
    let mut p = AppState::new(None, AltProvider::Playback);
    assert!(matches!(p.handle_key_event(ch(' ')), KeyEffect::TogglePlayback));
}

#[test]
fn global_shortcuts() {
    let mut a = app();
    assert!(matches!(a.handle_key_event(ch('T')), KeyEffect::Send(Action::ThemeCycle)));
    assert!(matches!(a.handle_key_event(ch('C')), KeyEffect::Send(Action::VizCycleColormap)));
    assert!(matches!(a.handle_key_event(ch('a')), KeyEffect::AddBookmark));
    assert!(!a.bookmark_panel);
    assert!(matches!(a.handle_key_event(KeyEvent::with_ctrl(KeyCode::Char('b'))), KeyEffect::Nothing));
    assert!(a.bookmark_panel);
    assert!(matches!(a.handle_key_event(KeyEvent::with_ctrl(KeyCode::Char('b'))), KeyEffect::Nothing));
    assert!(!a.bookmark_panel);
    assert!(matches!(a.handle_key_event(KeyEvent::with_ctrl(KeyCode::Char('s'))), KeyEffect::SaveConfig));
    assert!(matches!(a.handle_key_event(KeyEvent::with_ctrl(KeyCode::Char('o'))), KeyEffect::Send(Action::SelectTab(0))));
    // Ctrl+P shows the Setup tab's presets, Ctrl+D resets its configuration.
    assert!(matches!(a.handle_key_event(KeyEvent::with_ctrl(KeyCode::Char('p'))), KeyEffect::Nothing));
    match a.handle_key_event(key(KeyCode::Enter)) {
        KeyEffect::LoadConfig(p, AfterTab::Keymap) => assert_eq!(p, "configs/plummer.toml"),
        other => panic!("expected a preset load, got {other:?}"),
    }
    assert!(matches!(a.handle_key_event(KeyEvent::with_ctrl(KeyCode::Char('d'))), KeyEffect::Nothing));
    assert!(a.tab_view.setup.config_loaded());
    assert!(matches!(a.handle_key_event(key(KeyCode::F(5))), KeyEffect::Send(Action::SelectTab(4))));
    assert!(matches!(a.handle_key_event(key(KeyCode::Tab)), KeyEffect::Send(Action::TabNext)));
    // 'c' outside comparison and plain 'b' go to the tab, which passes them on.
    assert!(matches!(a.handle_key_event(ch('c')), KeyEffect::Tab(ViewRequest::Nothing, AfterTab::Keymap)));
    assert!(matches!(a.handle_key_event(ch('b')), KeyEffect::Tab(ViewRequest::Nothing, AfterTab::Keymap)));
    let mut cmp = AppState::new(None, AltProvider::Comparison);
    assert!(matches!(cmp.handle_key_event(ch('c')), KeyEffect::CycleComparisonView));
}

#[test]
fn setup_only_shortcuts_elsewhere_do_nothing() {
    let mut a = app();
    a.handle_action(&Action::SelectTab(2));
    assert_eq!(a.tab_view.selected, Tab::Density);
    assert!(matches!(a.handle_key_event(KeyEvent::with_ctrl(KeyCode::Char('p'))), KeyEffect::Nothing));
    assert!(matches!(a.handle_key_event(KeyEvent::with_ctrl(KeyCode::Char('d'))), KeyEffect::Nothing));
}

#[test]
fn keys_after_tabs() {
    assert!(matches!(key_after_tab(AltProvider::Live, key(KeyCode::Left)), AfterTab::Send(Action::ScrubBackward)));
    assert!(matches!(key_after_tab(AltProvider::Live, ch(']')), AfterTab::Send(Action::ScrubForward)));
    assert!(matches!(key_after_tab(AltProvider::Live, ch('{')), AfterTab::Send(Action::ScrubJumpBackward)));
    assert!(matches!(key_after_tab(AltProvider::Live, key(KeyCode::End)), AfterTab::Send(Action::ScrubToEnd)));
    assert!(matches!(key_after_tab(AltProvider::Live, key(KeyCode::Backspace)), AfterTab::Send(Action::ScrubToLive)));
    assert!(matches!(key_after_tab(AltProvider::Live, ch('<')), AfterTab::Nothing));
    assert!(matches!(key_after_tab(AltProvider::Playback, ch('<')), AfterTab::PlaybackSlower));
    assert!(matches!(key_after_tab(AltProvider::Playback, ch('.')), AfterTab::PlaybackStepForward));
    assert!(matches!(key_after_tab(AltProvider::Live, ch('z')), AfterTab::Keymap));
}

#[test]
fn start_spawns_and_selects_run_control() {
    let mut a = app();
    let e = a.handle_action(&Action::SimStart);
    assert_eq!(e.len(), 3);
    assert!(matches!(e[0], ActionEffect::ResetData));
    assert!(matches!(&e[1], ActionEffect::SpawnSim(p) if p == "configs/plummer.toml"));
    assert!(matches!(e[2], ActionEffect::ResetPerformance));
    assert!(a.sim_running);
    assert_eq!(a.tab_view.selected, Tab::RunControl);
    // A second start stops the first run.
    let e = a.handle_action(&Action::SimStart);
    assert!(matches!(e[0], ActionEffect::StopSim));
    assert_eq!(e.len(), 4);
}

#[test]
fn start_without_config_only_clears() {
    let mut a = AppState::new(None, AltProvider::Live);
    let e = a.handle_action(&Action::SimStart);
    assert_eq!(e.len(), 2);
    assert!(matches!(e[0], ActionEffect::ResetData));
    assert!(!a.sim_running);
}

#[test]
fn stop_pause_resume_restart() {
    let mut a = running_app();
    let e = a.handle_action(&Action::SimPause);
    assert!(matches!(e[0], ActionEffect::PauseSim));
    assert!(a.sim_paused);
    let e = a.handle_action(&Action::SimResume);
    assert!(matches!(e[0], ActionEffect::ResumeSim));
    assert!(!a.sim_paused);
    let e = a.handle_action(&Action::SimRestart);
    assert!(matches!(e[0], ActionEffect::StopSim));
    assert!(matches!(e[1], ActionEffect::ResetData));
    assert!(matches!(e[2], ActionEffect::SpawnSim(_)));
    assert!(matches!(e[3], ActionEffect::ResetPerformance));
    let e = a.handle_action(&Action::SimStop);
    assert_eq!(e.len(), 2);
    assert!(matches!(e[0], ActionEffect::StopSim));
    assert!(matches!(e[1], ActionEffect::ClearStepProgress));
    assert!(!a.sim_running);
    assert!(!a.status_bar.is_sim_active());
    // Pausing with nothing attached sends nothing.
    let e = a.handle_action(&Action::SimPause);
    assert!(e.is_empty());
}

#[test]
fn exit_update_detaches() {
    let mut a = running_app();
    let e = a.handle_action(&Action::SimUpdate(SimStatus { step: 10, exit_reason: None, log_messages: vec![] }));
    assert_eq!(e.len(), 1);
    assert!(a.sim_running);
    let e = a.handle_action(&Action::SimUpdate(SimStatus { step: 11, exit_reason: Some("completed".to_string()), log_messages: vec![] }));
    assert_eq!(e.len(), 2);
    assert!(matches!(e[1], ActionEffect::NotifyExit));
    assert!(!a.sim_running);
}

#[test]
fn render_only_when_due() {
    let mut a = app();
    assert_eq!(a.handle_action(&Action::Render).len(), 1);
    assert!(!a.needs_redraw);
    assert!(a.handle_action(&Action::Render).is_empty());
    a.handle_action(&Action::Resize(80, 24));
    assert!(a.needs_redraw);
    assert_eq!(a.handle_action(&Action::Render).len(), 1);
    let mut r = running_app();
    r.handle_action(&Action::Render);
    assert_eq!(r.handle_action(&Action::Render).len(), 1);
}

#[test]
fn loop_flags_and_scrubbing() {
    let mut a = app();
    a.handle_action(&Action::Suspend);
    assert!(a.should_suspend);
    a.handle_action(&Action::Resume);
    assert!(!a.should_suspend);
    let e = a.handle_action(&Action::ScrubJumpForward);
    assert!(matches!(e[0], ActionEffect::Scrub(ScrubOp::JumpForward(10))));
    a.status_bar.set_scrub_position(Some((1, 5)));
    a.handle_action(&Action::ScrubToLive);
    assert_eq!(a.status_bar.scrub_position(), None);
    assert!(matches!(a.handle_action(&Action::Tick)[0], ActionEffect::ClearKeySequence));
    a.handle_action(&Action::Quit);
    assert!(a.should_quit);
}

#[test]
fn config_loaded_names_status() {
    let mut a = AppState::new(None, AltProvider::Live);
    let e = a.handle_action(&Action::ConfigLoaded("configs/nfw.toml".to_string()));
    assert!(matches!(&e[0], ActionEffect::LoadConfig(p) if p == "configs/nfw.toml"));
    assert_eq!(a.status_bar.config_name(), "nfw.toml");
    assert_eq!(a.config_path.as_deref(), Some("configs/nfw.toml"));
}

#[test]
fn colormap_and_theme_follow_settings_tab() {
    let mut a = app();
    assert!(matches!(a.handle_action(&Action::VizCycleColormap)[0], ActionEffect::CycleColormap));
    a.handle_action(&Action::SelectTab(9));
    assert!(matches!(a.handle_action(&Action::VizCycleColormap)[0], ActionEffect::ColormapFromSettings));
    assert!(matches!(a.handle_action(&Action::ThemeCycle)[0], ActionEffect::ThemeFromSettings));
}

#[test]
fn export_stems() {
    let a = app();
    assert_eq!(a.export_stem("2026-03-10_14-30-22"), "plummer_2026-03-10_14-30-22");
    let b = AppState::new(None, AltProvider::Live);
    assert_eq!(b.export_stem("T"), "phasma_T");
    let c = AppState::new(Some("runs/custom.cfg".to_string()), AltProvider::Live);
    assert_eq!(c.export_stem("T"), "phasma_T");
}

#[test]
fn terminal_events() {
    let mut a = app();
    assert!(matches!(a.handle_event(TermEvent::Tick), EventEffect::Send(Action::Tick)));
    assert!(matches!(a.handle_event(TermEvent::Resize(120, 40)), EventEffect::Send(Action::Resize(120, 40))));
    assert!(matches!(a.handle_event(TermEvent::Quit), EventEffect::Send(Action::Quit)));
    a.handle_action(&Action::Render);
    assert!(!a.needs_redraw);
    assert!(matches!(a.handle_event(TermEvent::ScrollUp), EventEffect::Nothing));
    assert!(a.needs_redraw);
    a.handle_action(&Action::SelectTab(2));
    assert!(matches!(a.handle_event(TermEvent::ScrollUp), EventEffect::Scroll(-1)));
    assert!(matches!(a.handle_event(TermEvent::ScrollDown), EventEffect::Scroll(1)));
    assert!(matches!(a.handle_event(TermEvent::MouseMoved(3, 4)), EventEffect::MouseMove(3, 4)));
    assert!(matches!(
        a.handle_event(TermEvent::Key(ch('+'))),
        EventEffect::Key(KeyEffect::Tab(ViewRequest::Zoom('+'), AfterTab::Keymap))
    ));
    assert!(matches!(a.handle_event(TermEvent::Other), EventEffect::Nothing));
}

#[test]
fn loop_steps() {
    let mut a = app();
    assert_eq!(a.loop_step(), LoopStep::Continue);
    a.handle_action(&Action::Quit);
    assert_eq!(a.loop_step(), LoopStep::Quit);
    a.handle_action(&Action::Suspend);
    assert_eq!(a.loop_step(), LoopStep::Suspend);
    a.handle_action(&Action::Resume);
    assert_eq!(a.loop_step(), LoopStep::Quit);
}

#[test]
fn startup_appearance() {
    let l = startup_look(None, "gruvbox", "magma");
    assert_eq!((l.theme.as_str(), l.colormap.as_str()), ("gruvbox", "magma"));
    assert_eq!((l.guard.min_cols(), l.guard.min_rows()), (80, 24));
    let cfg = Appearance { theme: "dark".to_string(), colormap_default: "inferno".to_string(), min_columns: 100, min_rows: 30 };
    let l = startup_look(Some(&cfg), "light", "magma");
    assert_eq!((l.theme.as_str(), l.colormap.as_str()), ("light", "inferno"));
    assert_eq!((l.guard.min_cols(), l.guard.min_rows()), (100, 30));
}

#[test]
fn backspace_returns_to_live() {
    let mut a = app();
    a.status_bar.set_scrub_position(Some((3, 10)));
    for tab in [0usize, 1, 2, 9] {
        a.handle_action(&Action::SelectTab(tab));
        assert!(matches!(
            a.handle_key_event(key(KeyCode::Backspace)),
            KeyEffect::Tab(ViewRequest::Nothing, AfterTab::Send(Action::ScrubToLive))
        ));
    }
    let e = a.handle_action(&Action::ScrubToLive);
    assert!(matches!(e[0], ActionEffect::Scrub(ScrubOp::ToLive)));
    assert_eq!(a.status_bar.scrub_position(), None);
}

#[test]
fn c_on_heatmap_tabs() {
    let mut a = app();
    a.handle_action(&Action::SelectTab(3));
    assert!(matches!(a.handle_key_event(ch('c')), KeyEffect::Send(Action::VizCycleColormap)));
    let e = a.handle_action(&Action::VizCycleColormap);
    assert!(matches!(e[0], ActionEffect::CycleColormap));
    let mut cmp = AppState::new(None, AltProvider::Comparison);
    cmp.handle_action(&Action::SelectTab(2));
    assert!(matches!(cmp.handle_key_event(ch('c')), KeyEffect::CycleComparisonView));
}
