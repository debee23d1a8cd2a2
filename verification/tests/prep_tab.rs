use phasma::action::{Action, SimStatus};
use phasma::components::prep_tab::{browser_label, line_kind, LineKind, PrepKey, PrepStatus, PrepTab};
use phasma::keys::{KeyCode, KeyEvent};

fn key(c: KeyCode) -> KeyEvent {
    KeyEvent::plain(c)
}

fn listing() -> Vec<String> {
    vec![
        "configs/nfw.toml".to_string(),
        "configs/notes.txt".to_string(),
        "configs/hernquist.toml".to_string(),
        "configs/plummer.toml".to_string(),
    ]
}

#[test]
fn browser_stops_at_the_ends() {
    let mut t = PrepTab::new();
    t.refresh_config_list(listing());
    assert_eq!(
        t.available_configs(),
        &vec!["configs/hernquist.toml".to_string(), "configs/nfw.toml".to_string(), "configs/plummer.toml".to_string()]
    );
    t.handle_key_event(key(KeyCode::Up));
    assert_eq!(t.browser_selected(), 0);
    for _ in 0..5 {
        t.handle_key_event(key(KeyCode::Down));
    }
    assert_eq!(t.browser_selected(), 2);
    match t.handle_key_event(key(KeyCode::Enter)) {
        PrepKey::Load(p) => assert_eq!(p, "configs/plummer.toml"),
        other => panic!("unexpected {other:?}"),
    }
    assert!(matches!(t.handle_key_event(key(KeyCode::Char('l'))), PrepKey::Refresh));
    t.refresh_config_list(vec![]);
    assert_eq!(t.browser_selected(), 0);
    assert!(matches!(t.handle_key_event(key(KeyCode::Enter)), PrepKey::Done(None)));
}

#[test]
fn init_selects_the_remembered_config() {
    let mut t = PrepTab::new();
    assert_eq!(t.set_config_path(Some("configs/nfw.toml".to_string())), Some("configs/nfw.toml".to_string()));
    t.init(listing());
    assert_eq!(t.browser_selected(), 1);
    let mut u = PrepTab::new();
    u.set_config_path(Some("elsewhere/x.toml".to_string()));
    u.init(listing());
    assert_eq!(u.browser_selected(), 0);
}

#[test]
fn loads_show_non_blank_lines() {
    let mut t = PrepTab::new();
    t.finish_load("configs/a.toml".to_string(), Ok("# model\n\n   \n[model]\ntype = 1\n".to_string()), None);
    assert!(t.config_loaded());
    assert_eq!(t.config_lines(), &vec!["# model".to_string(), "[model]".to_string(), "type = 1".to_string()]);
    t.finish_load("configs/b.toml".to_string(), Ok("[model\n".to_string()), Some("unclosed table".to_string()));
    assert!(!t.config_loaded());
    assert_eq!(
        t.config_lines(),
        &vec!["[model".to_string(), String::new(), "✗ Parse error: unclosed table".to_string()]
    );
    t.finish_load("configs/c.toml".to_string(), Err("permission denied".to_string()), None);
    assert_eq!(t.config_lines(), &vec!["Cannot read file: permission denied".to_string()]);
    assert_eq!(PrepTab::display_name("configs/plummer.toml"), "plummer.toml");
}

#[test]
fn run_key_needs_a_loaded_idle_config() {
    let mut t = PrepTab::new();
    assert!(matches!(t.handle_key_event(key(KeyCode::Char('r'))), PrepKey::Done(None)));
    t.finish_load("configs/a.toml".to_string(), Ok("a = 1".to_string()), None);
    assert!(matches!(t.handle_key_event(key(KeyCode::Char('r'))), PrepKey::Done(Some(Action::SimStart))));
    t.update(&Action::SimStart);
    assert!(matches!(t.handle_key_event(key(KeyCode::Char('r'))), PrepKey::Done(None)));
    t.update(&Action::SimUpdate(SimStatus { step: 9, exit_reason: Some("time limit".to_string()), log_messages: vec![] }));
    assert!(matches!(t.handle_key_event(key(KeyCode::Char('r'))), PrepKey::Done(Some(Action::SimStart))));
}

#[test]
fn what_the_tab_shows() {
    use_line_kinds();
    assert_eq!(browser_label("configs/plummer.toml"), "plummer");
    assert_eq!(browser_label("configs/notes.txt"), "notes.txt");
    assert_eq!(browser_label("plain"), "plain");
    let mut t = PrepTab::new();
    assert_eq!(t.status(), PrepStatus::Idle);
    t.finish_load("a.toml".to_string(), Ok("x = 1".to_string()), None);
    assert_eq!(t.status(), PrepStatus::Ready);
    t.update(&Action::SimStart);
    assert_eq!(t.status(), PrepStatus::Running);
}

fn use_line_kinds() {
    assert_eq!(line_kind("# comment"), LineKind::Comment);
    assert_eq!(line_kind("[model]"), LineKind::Section);
    assert_eq!(line_kind("✗ Parse error: x"), LineKind::Error);
    assert_eq!(line_kind("type = 1"), LineKind::Plain);
    assert_eq!(line_kind(""), LineKind::Plain);
}

#[test]
fn down_then_up_keeps_the_file() {
    let mut t = PrepTab::new();
    t.refresh_config_list(listing());
    t.handle_key_event(key(KeyCode::Down));
    t.handle_key_event(key(KeyCode::Up));
    assert_eq!(t.browser_selected(), 0);
}
