use phasma::action::{Action, SimStatus};
use phasma::components::exit_tab::{ExitStatus, ExitTab};
use phasma::components::run_tab::{RunTab, MAX_HISTORY};
use phasma::keys::{KeyCode, KeyEvent};

#[test]
fn run_tab_pauses_and_keeps_energy_points() {
    let mut t: RunTab<(f64, f64)> = RunTab::new();
    assert_eq!(t.handle_key_event(KeyEvent::plain(KeyCode::Char('p'))), Some(Action::SimPause));
    t.update(&Action::SimPause, None);
    assert!(t.paused);
    assert_eq!(t.handle_key_event(KeyEvent::plain(KeyCode::Char(' '))), Some(Action::SimResume));
    assert_eq!(t.handle_key_event(KeyEvent::plain(KeyCode::Char('s'))), Some(Action::SimStop));
    assert_eq!(t.handle_key_event(KeyEvent::plain(KeyCode::Char('x'))), None);
    t.update(&Action::SimStop, None);
    assert!(!t.paused);
    let upd = |s: u64| Action::SimUpdate(SimStatus { step: s, exit_reason: None, log_messages: vec![] });
    for s in 0..(MAX_HISTORY as u64 + 10) {
        t.update(&upd(s), Some((s as f64, 1.0)));
    }
    t.update(&upd(9999), None);
    t.update(&Action::Tick, Some((-1.0, 0.0)));
    assert_eq!(t.energy_history.len(), MAX_HISTORY);
    assert_eq!(t.energy_history.get(0).0, 10.0);
    assert_eq!(t.energy_history.get(MAX_HISTORY - 1).0, (MAX_HISTORY + 9) as f64);
}

#[test]
fn exit_tab_records_start_and_end() {
    let mut t: ExitTab<u32> = ExitTab::new();
    t.update(&Action::SimStart, 5);
    assert_eq!((t.start_time, t.end_time), (Some(5), None));
    t.update(&Action::SimUpdate(SimStatus { step: 1, exit_reason: None, log_messages: vec![] }), 6);
    assert_eq!(t.end_time, None);
    t.update(&Action::SimUpdate(SimStatus { step: 2, exit_reason: Some("done".to_string()), log_messages: vec![] }), 7);
    assert_eq!((t.start_time, t.end_time), (Some(5), Some(7)));
    t.update(&Action::SimStart, 8);
    assert_eq!((t.start_time, t.end_time), (Some(8), None));
    t.update(&Action::SimStop, 9);
    assert_eq!(t.end_time, Some(9));
}

#[test]
fn exit_tab_status_follows_updates() {
    let mut t: ExitTab<u32> = ExitTab::new();
    assert_eq!(t.status(), ExitStatus::NotStarted);
    t.update(&Action::SimStart, 1);
    assert_eq!(t.status(), ExitStatus::NotStarted);
    t.update(&Action::SimUpdate(SimStatus { step: 1, exit_reason: None, log_messages: vec![] }), 2);
    assert_eq!(t.status(), ExitStatus::Running);
    t.update(&Action::Tick, 3);
    assert_eq!(t.status(), ExitStatus::Running);
    t.update(&Action::SimUpdate(SimStatus { step: 2, exit_reason: Some("time limit".to_string()), log_messages: vec![] }), 4);
    assert_eq!(t.status(), ExitStatus::Exited("time limit".to_string()));
}
