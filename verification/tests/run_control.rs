use phasma::action::{Action, SimStatus};
use phasma::keys::{KeyCode, KeyEvent};
use phasma::tabs::run_control::{Level, LogFilter, RunControlTab, MAX_LOG};

fn key(c: KeyCode) -> KeyEvent {
    KeyEvent::plain(c)
}

#[test]
fn keys_ask_for_control_actions() {
    let mut t = RunControlTab::default();
    assert_eq!(t.handle_key_event(key(KeyCode::Char('p'))), Some(Action::SimPause));
    t.update(&Action::SimPause);
    assert!(t.paused());
    assert_eq!(t.handle_key_event(key(KeyCode::Char(' '))), Some(Action::SimResume));
    assert_eq!(t.handle_key_event(key(KeyCode::Char('s'))), Some(Action::SimStop));
    assert_eq!(t.handle_key_event(key(KeyCode::Char('r'))), Some(Action::SimRestart));
    assert_eq!(t.handle_key_event(key(KeyCode::Char('2'))), None);
    assert_eq!(t.log_filter(), LogFilter::WarnPlus);
}

#[test]
fn log_is_bounded_and_filtered() {
    let mut t = RunControlTab::default();
    for i in 0..250 {
        t.push_log(Level::Info, format!("m{i}"));
    }
    let all = t.visible_log(1000);
    assert_eq!(all.len(), MAX_LOG);
    assert_eq!(all[0].1, "m50");
    assert_eq!(all[MAX_LOG - 1].1, "m249");
    t.update(&Action::SimStop);
    t.push_log(Level::Error, "boom".to_string());
    t.handle_key_event(key(KeyCode::Char('2')));
    let w = t.visible_log(10);
    assert_eq!(w.len(), 2);
    assert_eq!(w[0], (Level::Warn, "Simulation stopped by user".to_string()));
    assert_eq!(w[1], (Level::Error, "boom".to_string()));
    t.handle_key_event(key(KeyCode::Char('3')));
    assert_eq!(t.visible_log(10), vec![(Level::Error, "boom".to_string())]);
    t.handle_key_event(key(KeyCode::Char('1')));
    let last3 = t.visible_log(3);
    assert_eq!(last3.len(), 3);
    assert_eq!(last3[2].1, "boom");
    assert_eq!(t.visible_log(0).len(), 0);
}

#[test]
fn actions_log_messages() {
    let mut t = RunControlTab::default();
    t.update(&Action::SimStart);
    t.update(&Action::SimPause);
    t.update(&Action::SimResume);
    t.update(&Action::SimRestart);
    t.update(&Action::StatusMsg("Config saved".to_string()));
    t.update(&Action::Tick);
    let log: Vec<String> = t.visible_log(10).into_iter().map(|e| e.1).collect();
    assert_eq!(
        log,
        vec![
            "Starting simulation…",
            "Simulation paused",
            "Simulation resumed",
            "Restarting simulation…",
            "Config saved"
        ]
    );
    assert!(!t.paused());
}

#[test]
fn updates_log_what_the_simulation_reports() {
    let mut t = RunControlTab::default();
    t.update(&Action::SimUpdate(SimStatus {
        step: 1,
        exit_reason: None,
        log_messages: vec!["building grid".to_string(), "poisson ready".to_string()],
    }));
    t.update(&Action::SimUpdate(SimStatus {
        step: 2,
        exit_reason: Some("t_final reached".to_string()),
        log_messages: vec!["step 2 done".to_string()],
    }));
    let log: Vec<String> = t.visible_log(10).into_iter().map(|e| e.1).collect();
    assert_eq!(log, vec!["building grid", "poisson ready", "step 2 done", "Exit: t_final reached"]);
}

#[test]
fn filter_hint_ticks_the_chosen_filter() {
    let mut t = RunControlTab::new();
    assert_eq!(t.filter_hint(), "[1]All [2]Warn+ [3]Error");
    t.handle_key_event(key(KeyCode::Char('2')));
    assert_eq!(t.filter_hint(), "[1]All [2]Warn+✓ [3]Error");
    t.handle_key_event(key(KeyCode::Char('3')));
    assert_eq!(t.filter_hint(), "[1]All [2]Warn+ [3]Error✓");
    assert_eq!(t.log_filter(), LogFilter::ErrorOnly);
}
