use phasma::action::Action;
use phasma::keys::{KeyCode, KeyEvent};
use phasma::tabs::settings::{SettingsSection, SettingsTab};

fn key(c: KeyCode) -> KeyEvent {
    KeyEvent::plain(c)
}

#[test]
fn focus_wraps_around_sections() {
    let mut s = SettingsTab::default();
    assert_eq!(s.focused_section(), SettingsSection::Theme);
    s.handle_key_event(key(KeyCode::Up));
    assert_eq!(s.focused_section(), SettingsSection::MinTermRows);
    s.handle_key_event(key(KeyCode::Char('j')));
    assert_eq!(s.focused_section(), SettingsSection::Theme);
}

#[test]
fn theme_and_colormap_cycle_and_notify() {
    let mut s = SettingsTab::default();
    assert_eq!(s.handle_key_event(key(KeyCode::Left)), Some(Action::ThemeCycle));
    assert_eq!(s.current_theme_name(), "publication");
    assert_eq!(s.handle_key_event(key(KeyCode::Char('l'))), Some(Action::ThemeCycle));
    assert_eq!(s.current_theme_name(), "dark");
    s.handle_key_event(key(KeyCode::Down));
    assert_eq!(s.handle_key_event(key(KeyCode::Right)), Some(Action::VizCycleColormap));
    assert_eq!(s.current_colormap_name(), "plasma");
}

#[test]
fn numeric_settings_are_clamped() {
    let mut s = SettingsTab::default();
    s.handle_key_event(key(KeyCode::Down));
    s.handle_key_event(key(KeyCode::Down));
    assert_eq!(s.focused_section(), SettingsSection::CellAspect);
    for _ in 0..20 {
        assert_eq!(s.handle_key_event(key(KeyCode::Left)), None);
    }
    assert_eq!(s.cell_aspect_pct(), 20);
    for _ in 0..20 {
        s.handle_key_event(key(KeyCode::Right));
    }
    assert_eq!(s.cell_aspect_pct(), 100);
    s.handle_key_event(key(KeyCode::Down));
    for _ in 0..10 {
        s.handle_key_event(key(KeyCode::Left));
    }
    assert_eq!(s.min_size(), (40, 24));
    for _ in 0..40 {
        s.handle_key_event(key(KeyCode::Right));
    }
    assert_eq!(s.min_size(), (300, 24));
    s.handle_key_event(key(KeyCode::Down));
    s.handle_key_event(key(KeyCode::Right));
    assert_eq!(s.min_size(), (300, 26));
    for _ in 0..10 {
        s.handle_key_event(key(KeyCode::Left));
    }
    assert_eq!(s.min_size(), (300, 12));
}

#[test]
fn sync_follows_names() {
    let mut s = SettingsTab::default();
    s.sync("minimal", "turbo");
    assert_eq!(s.current_theme_name(), "minimal");
    assert_eq!(s.current_colormap_name(), "turbo");
    s.sync("unknown", "unknown");
    assert_eq!(s.current_theme_name(), "dark");
    assert_eq!(s.current_colormap_name(), "viridis");
}

#[test]
fn left_then_right_keeps_the_choice() {
    let mut t = SettingsTab::new();
    t.sync("gruvbox", "magma");
    t.handle_key_event(KeyEvent::plain(KeyCode::Left));
    t.handle_key_event(KeyEvent::plain(KeyCode::Right));
    assert_eq!(t.current_theme_name(), "gruvbox");
    t.handle_key_event(KeyEvent::plain(KeyCode::Down));
    t.handle_key_event(KeyEvent::plain(KeyCode::Right));
    t.handle_key_event(KeyEvent::plain(KeyCode::Left));
    assert_eq!(t.current_colormap_name(), "magma");
}

#[test]
fn settings_rows_show_values() {
    let mut s = SettingsTab::default();
    let rows = s.rows();
    let expected: Vec<(bool, String, String)> = vec![
        (true, "Theme".to_string(), "◄ dark ►  (1/6)".to_string()),
        (false, "Colormap".to_string(), format!("◄ viridis ►  (1/{})", ratatui_plt::colormap::colormap_names().len())),
        (false, "Cell aspect ratio".to_string(), format!("◄ {:.2} ►", 0.5f64)),
        (false, "Min terminal cols".to_string(), "◄ 80 ►".to_string()),
        (false, "Min terminal rows".to_string(), "◄ 24 ►".to_string()),
    ];
    assert_eq!(rows, expected);
    s.handle_key_event(key(KeyCode::Right));
    s.handle_key_event(key(KeyCode::Down));
    s.handle_key_event(key(KeyCode::Down));
    s.handle_key_event(key(KeyCode::Left));
    let rows = s.rows();
    assert_eq!(rows[0].2, "◄ light ►  (2/6)");
    assert!(rows[2].0);
    assert_eq!(rows[2].2, "◄ 0.45 ►");
    for _ in 0..20 {
        s.handle_key_event(key(KeyCode::Right));
        let pct = s.cell_aspect_pct();
        assert_eq!(s.rows()[2].2, format!("◄ {:.2} ►", pct as f64 / 100.0));
    }
}
