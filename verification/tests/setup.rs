use phasma::action::{Action, SimStatus};
use phasma::keys::{KeyCode, KeyEvent};
use phasma::tabs::setup::{preset_name, SetupKey, SetupTab, PRESET_COUNT};

fn key(c: KeyCode) -> KeyEvent {
    KeyEvent::plain(c)
}

fn configs() -> Vec<String> {
    vec!["configs/a.toml".to_string(), "configs/b.toml".to_string(), "configs/c.toml".to_string()]
}

#[test]
fn browser_wraps_and_loads() {
    let mut t = SetupTab::new(None);
    assert!(matches!(t.handle_key_event(key(KeyCode::Enter)), SetupKey::Done(None)));
    t.set_available_configs(configs());
    t.handle_key_event(key(KeyCode::Up));
    assert_eq!(t.browser_selected(), 2);
    t.handle_key_event(key(KeyCode::Char('j')));
    assert_eq!(t.browser_selected(), 0);
    t.handle_key_event(key(KeyCode::Down));
    match t.handle_key_event(key(KeyCode::Enter)) {
        SetupKey::Load(p) => assert_eq!(p, "configs/b.toml"),
        other => panic!("unexpected {other:?}"),
    }
}

#[test]
fn load_outcomes() {
    let mut t = SetupTab::new(None);
    assert!(matches!(t.handle_key_event(key(KeyCode::Char('r'))), SetupKey::Done(None)));
    let a = t.finish_load("configs/a.toml".to_string(), Ok("[model]\r\ntype = \"plummer\"\n\n".to_string()), None);
    assert_eq!(a, Some(Action::ConfigLoaded("configs/a.toml".to_string())));
    assert!(t.config_loaded());
    assert_eq!(t.config_lines(), &vec!["[model]".to_string(), "type = \"plummer\"".to_string(), String::new()]);
    assert!(matches!(t.handle_key_event(key(KeyCode::Char('r'))), SetupKey::Done(Some(Action::SimStart))));
    let a = t.finish_load("configs/bad.toml".to_string(), Ok("x = ".to_string()), Some("expected a value".to_string()));
    assert_eq!(a, None);
    assert!(!t.config_loaded());
    assert_eq!(t.config_lines(), &vec!["x = ".to_string(), "✗ Parse error: expected a value".to_string()]);
    let a = t.finish_load("configs/gone.toml".to_string(), Err("No such file or directory".to_string()), None);
    assert_eq!(a, None);
    assert_eq!(t.config_lines(), &vec!["Cannot read file: No such file or directory".to_string()]);
}

#[test]
fn preset_popup() {
    let mut t = SetupTab::new(None);
    t.toggle_preset_popup();
    t.handle_key_event(key(KeyCode::Up));
    match t.handle_key_event(key(KeyCode::Enter)) {
        SetupKey::Load(p) => assert_eq!(p, "configs/tidal_nfw.toml"),
        other => panic!("unexpected {other:?}"),
    }
    t.toggle_preset_popup();
    t.handle_key_event(key(KeyCode::Down));
    t.handle_key_event(key(KeyCode::Char('j')));
    assert!(matches!(t.handle_key_event(key(KeyCode::Char('r'))), SetupKey::Done(None)));
    match t.handle_key_event(key(KeyCode::Enter)) {
        SetupKey::Load(p) => assert_eq!(p, "configs/plummer_hires.toml"),
        other => panic!("unexpected {other:?}"),
    }
    t.toggle_preset_popup();
    assert!(matches!(t.handle_key_event(key(KeyCode::Esc)), SetupKey::Done(None)));
    assert!(matches!(t.handle_key_event(key(KeyCode::Enter)), SetupKey::Done(None)));
    assert_eq!(PRESET_COUNT, 24);
    assert_eq!(preset_name(0), "plummer");
    assert_eq!(preset_name(23), "tidal_nfw");
}

#[test]
fn toml_scroll_bounds() {
    let mut t = SetupTab::new(None);
    t.finish_load("x.toml".to_string(), Ok("a\nb\nc".to_string()), None);
    for _ in 0..5 {
        t.handle_key_event(key(KeyCode::Char(']')));
    }
    assert_eq!(t.toml_scroll(), 2);
    t.handle_key_event(key(KeyCode::Char('[')));
    assert_eq!(t.toml_scroll(), 1);
    t.reset_to_defaults();
    assert_eq!(t.toml_scroll(), 0);
    assert!(t.config_loaded());
    t.handle_key_event(key(KeyCode::Char(']')));
    assert_eq!(t.toml_scroll(), 0);
}

#[test]
fn selection_clamped_when_list_shrinks() {
    let mut t = SetupTab::new(None);
    t.set_available_configs(configs());
    t.handle_key_event(key(KeyCode::Up));
    assert_eq!(t.browser_selected(), 2);
    t.set_available_configs(vec!["only.toml".to_string()]);
    assert_eq!(t.browser_selected(), 0);
}

#[test]
fn config_list_is_sorted_toml_files() {
    let mut t = SetupTab::new(None);
    t.refresh_config_list(vec![
        "configs/plummer.toml".to_string(),
        "configs/README.md".to_string(),
        "configs/debug.toml".to_string(),
        "configs/.toml".to_string(),
        "configs/King.toml".to_string(),
    ]);
    assert_eq!(
        t.available_configs(),
        &vec!["configs/King.toml".to_string(), "configs/debug.toml".to_string(), "configs/plummer.toml".to_string()]
    );
    t.handle_key_event(key(KeyCode::Up));
    assert_eq!(t.browser_selected(), 2);
    t.refresh_config_list(vec!["configs/a.toml".to_string()]);
    assert_eq!(t.browser_selected(), 0);
    t.refresh_config_list(vec![]);
    assert_eq!(t.browser_selected(), 0);
}

#[test]
fn follows_simulation() {
    let mut t = SetupTab::new(Some("a.toml".to_string()));
    t.update(&Action::SimStart);
    t.update(&Action::SimUpdate(SimStatus { step: 1, exit_reason: Some("completed".to_string()), log_messages: vec![] }));
    t.update(&Action::SimStop);
}

#[test]
fn preset_list_shows_and_moves() {
    let mut t = SetupTab::new(None);
    assert!(!t.preset_popup_shown());
    t.toggle_preset_popup();
    assert!(t.preset_popup_shown());
    assert_eq!(t.preset_selected(), 0);
    t.handle_key_event(key(KeyCode::Up));
    assert_eq!(t.preset_selected(), PRESET_COUNT - 1);
    t.handle_key_event(key(KeyCode::Down));
    t.handle_key_event(key(KeyCode::Down));
    assert_eq!(t.preset_selected(), 1);
    t.toggle_preset_popup();
    assert!(!t.preset_popup_shown());
    assert_eq!(t.preset_selected(), 0);
}
