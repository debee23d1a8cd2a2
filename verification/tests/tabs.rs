use phasma::action::{Action, SimStatus};
use phasma::components::prep_tab::PrepKey;
use phasma::components::tab_view as workflow;
use phasma::keys::{KeyCode, KeyEvent};
use phasma::tabs::density::ContourMode;
use phasma::tabs::poisson_detail::derive_bc_label;
use phasma::tabs::controls::ViewRequest;
use phasma::tabs::{compact_tab_label, content_title, tab_dimmed, unavailable_message, Tab, TabKey, TabView, TAB_COUNT};

#[test]
fn tab_from_repr_and_index() {
    assert_eq!(Tab::from_repr(0), Some(Tab::Setup));
    assert_eq!(Tab::from_repr(9), Some(Tab::Settings));
    assert_eq!(Tab::from_repr(10), None);
    for i in 0..TAB_COUNT {
        assert_eq!(Tab::from_repr(i).unwrap().index(), i);
    }
    assert_eq!(Tab::default(), Tab::Setup);
}

#[test]
fn tab_titles() {
    assert_eq!(Tab::Density.to_string(), "F3 Density");
    assert_eq!(Tab::Settings.to_string(), "F10 Settings");
    assert_eq!(Tab::Performance.to_string(), "F8 Perf");
    assert_eq!(compact_tab_label(Tab::Setup), "1");
    assert_eq!(compact_tab_label(Tab::Settings), "10");
}

#[test]
fn tab_navigation_wraps() {
    let mut v = TabView::new(None);
    v.update(&Action::TabPrev);
    assert_eq!(v.selected, Tab::Settings);
    v.update(&Action::TabNext);
    assert_eq!(v.selected, Tab::Setup);
    for _ in 0..10 {
        v.update(&Action::TabNext);
    }
    assert_eq!(v.selected, Tab::Setup);
    v.update(&Action::SelectTab(4));
    assert_eq!(v.selected, Tab::Energy);
    v.update(&Action::SelectTab(42));
    assert_eq!(v.selected, Tab::Setup);
    v.update(&Action::SimStart);
    assert_eq!(v.selected, Tab::RunControl);
    v.update(&Action::Tick);
    assert_eq!(v.selected, Tab::RunControl);
    v.update(&Action::SimUpdate(SimStatus { step: 3, exit_reason: Some("completed".to_string()), log_messages: vec![] }));
    assert_eq!(v.selected, Tab::RunControl);
    v.restore_tab(8);
    assert_eq!(v.selected, Tab::PoissonDetail);
    v.restore_tab(11);
    assert_eq!(v.selected, Tab::Setup);
}

fn done(r: TabKey) -> Option<Action> {
    match r {
        TabKey::Done(a) => a,
        other => panic!("expected an action, got {other:?}"),
    }
}

#[test]
fn tab_global_keys() {
    let mut v = TabView::new(None);
    assert_eq!(done(v.handle_key_event(KeyEvent::plain(KeyCode::F(1)))), Some(Action::SelectTab(0)));
    assert_eq!(done(v.handle_key_event(KeyEvent::plain(KeyCode::F(10)))), Some(Action::SelectTab(9)));
    assert_eq!(done(v.handle_key_event(KeyEvent::plain(KeyCode::F(11)))), None);
    assert_eq!(done(v.handle_key_event(KeyEvent::plain(KeyCode::Tab))), Some(Action::TabNext));
    assert_eq!(done(v.handle_key_event(KeyEvent::plain(KeyCode::BackTab))), Some(Action::TabPrev));
    assert_eq!(done(v.handle_key_event(KeyEvent::plain(KeyCode::Char('x')))), None);
}

#[test]
fn keys_go_to_the_selected_tab() {
    let mut v = TabView::new(None);
    // Run Control: `p` pauses, `2` filters the log.
    v.update(&Action::SelectTab(1));
    assert_eq!(done(v.handle_key_event(KeyEvent::plain(KeyCode::Char('p')))), Some(Action::SimPause));
    assert_eq!(done(v.handle_key_event(KeyEvent::plain(KeyCode::Char('s')))), Some(Action::SimStop));
    // Density: `1` picks the yz projection, `+` asks to zoom.
    v.update(&Action::SelectTab(2));
    assert!(matches!(v.handle_key_event(KeyEvent::plain(KeyCode::Char('1'))), TabKey::View(ViewRequest::Nothing)));
    assert_eq!(v.density.axis, 0);
    assert!(matches!(v.handle_key_event(KeyEvent::plain(KeyCode::Char('+'))), TabKey::View(ViewRequest::Zoom('+'))));
    // On the heatmap tabs `c` cycles the colormap.
    assert_eq!(done(v.handle_key_event(KeyEvent::plain(KeyCode::Char('c')))), Some(Action::VizCycleColormap));
    // Phase space: `)` moves the second slice up.
    v.update(&Action::SelectTab(3));
    assert_eq!(done(v.handle_key_event(KeyEvent::plain(KeyCode::Char('c')))), Some(Action::VizCycleColormap));
    assert!(matches!(v.handle_key_event(KeyEvent::plain(KeyCode::Char(')'))), TabKey::View(ViewRequest::Slice(1, true))));
    // Energy: `f` fits the window.
    v.update(&Action::SelectTab(4));
    assert!(matches!(v.handle_key_event(KeyEvent::plain(KeyCode::Char('f'))), TabKey::View(ViewRequest::FitAll)));
    // Rank: `n` selects the next node.
    v.update(&Action::SelectTab(5));
    assert_eq!(done(v.handle_key_event(KeyEvent::plain(KeyCode::Char('n')))), None);
    assert_eq!(v.rank.selected_node, 1);
    // Profiles: `b` cycles the bins from 64 to 128.
    v.update(&Action::SelectTab(6));
    v.handle_key_event(KeyEvent::plain(KeyCode::Char('b')));
    assert_eq!(v.profiles.bins(), 128);
    // Poisson detail takes no key.
    v.update(&Action::SelectTab(8));
    assert_eq!(done(v.handle_key_event(KeyEvent::plain(KeyCode::Char('n')))), None);
    // Settings: Right on the theme asks to follow it.
    v.update(&Action::SelectTab(9));
    assert_eq!(done(v.handle_key_event(KeyEvent::plain(KeyCode::Right))), Some(Action::ThemeCycle));
    assert_eq!(v.settings_theme_name(), "light");
}

#[test]
fn setup_keys_ask_to_load() {
    let mut v = TabView::new(None);
    v.setup.refresh_config_list(vec!["configs/b.toml".to_string(), "configs/a.toml".to_string()]);
    match v.handle_key_event(KeyEvent::plain(KeyCode::Enter)) {
        TabKey::Load(p) => assert_eq!(p, "configs/a.toml"),
        other => panic!("expected a load, got {other:?}"),
    }
    v.setup_toggle_presets();
    match v.handle_key_event(KeyEvent::plain(KeyCode::Enter)) {
        TabKey::Load(p) => assert_eq!(p, "configs/plummer.toml"),
        other => panic!("expected a load, got {other:?}"),
    }
}

#[test]
fn log_toggle_follows_everywhere() {
    let mut v = TabView::new(None);
    assert_eq!(v.update(&Action::VizToggleLog), None);
    assert_eq!(v.density.norm_mode, v.phase_space.norm_mode);
    assert_ne!(v.density.norm_mode, phasma::plt_bridge::NormMode::Linear);
    v.update(&Action::SimPause);
    assert!(v.run_control.paused());
}

#[test]
fn settings_sync_through_tabs() {
    let mut v = TabView::new(None);
    v.sync_settings("light", "magma");
    assert_eq!(v.settings_theme_name(), "light");
    assert_eq!(v.settings_colormap_name(), "magma");
    v.sync_settings("no-such-theme", "viridis");
    assert_eq!(v.settings_theme_name(), "dark");
}

#[test]
fn workflow_tabs() {
    let mut v: workflow::TabView<(f64, f64), u32> = workflow::TabView::new(None);
    assert_eq!(v.selected, workflow::Tab::Prep);
    assert!(matches!(v.handle_key_event(KeyEvent::plain(KeyCode::F(3))), PrepKey::Done(Some(Action::SelectTab(2)))));
    assert!(matches!(v.handle_key_event(KeyEvent::plain(KeyCode::F(4))), PrepKey::Done(None)));
    v.update(&Action::TabPrev, 0, None);
    assert_eq!(v.selected, workflow::Tab::Exit);
    v.update(&Action::TabNext, 0, None);
    assert_eq!(v.selected, workflow::Tab::Prep);
    v.update(&Action::SelectTab(1), 0, None);
    assert_eq!(v.selected, workflow::Tab::Run);
    assert_eq!(v.selected.to_string(), "F2 Run");
    assert_eq!(workflow::Tab::from_repr(3), None);
    // The run tab pauses and resumes.
    assert!(matches!(v.handle_key_event(KeyEvent::plain(KeyCode::Char(' '))), PrepKey::Done(Some(Action::SimPause))));
    v.update(&Action::SimPause, 1, None);
    assert!(matches!(v.handle_key_event(KeyEvent::plain(KeyCode::Char('p'))), PrepKey::Done(Some(Action::SimResume))));
}

#[test]
fn bc_labels() {
    assert_eq!(derive_bc_label("fft_periodic"), "Periodic");
    assert_eq!(derive_bc_label("fft"), "Periodic");
    assert_eq!(derive_bc_label("fft_isolated"), "Isolated (Hockney-Eastwood zero-padding)");
    assert_eq!(derive_bc_label("multigrid"), "Configurable (multigrid)");
    assert_eq!(derive_bc_label("spherical_harmonics"), "Spherical");
    assert_eq!(derive_bc_label("tree"), "Open (tree)");
    assert_eq!(derive_bc_label(""), "N/A");
    assert_eq!(derive_bc_label("custom"), "custom");
}

#[test]
fn contour_mode_cycles() {
    let m = ContourMode::default();
    assert_eq!(m.tag(), "");
    assert_eq!(m.next().tag(), " [contour]");
    assert_eq!(m.next().next().tag(), " [filled]");
    assert_eq!(m.next().next().next(), ContourMode::HeatmapOnly);
}

#[test]
fn unavailable_tabs() {
    assert!(tab_dimmed(Tab::Rank, "uniform", "fft_isolated"));
    assert!(!tab_dimmed(Tab::Rank, "ht", "fft_periodic"));
    assert!(tab_dimmed(Tab::PoissonDetail, "ht", "fft_periodic"));
    assert!(!tab_dimmed(Tab::Density, "uniform", "fft_periodic"));
    assert_eq!(
        unavailable_message(Tab::Rank, "uniform", "fft_isolated"),
        Some("Rank Monitor requires hierarchical_tucker representation")
    );
    assert_eq!(unavailable_message(Tab::PoissonDetail, "ht", "multigrid"), Some("Poisson Detail requires fft_isolated solver"));
    assert_eq!(unavailable_message(Tab::PoissonDetail, "ht", "fft_isolated"), None);
    assert_eq!(content_title(Tab::Energy), " ► Energy Conservation ");
    assert_eq!(content_title(Tab::RunControl), " ► Run Control ");
}
