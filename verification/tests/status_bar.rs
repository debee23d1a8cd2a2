use phasma::action::SimStatus;
use phasma::status_bar::{run_state_label, RunState, StatusBar, StepNotice};

#[test]
fn run_states() {
    let mut s = StatusBar::new();
    assert_eq!(s.config_name(), "—");
    assert_eq!(s.run_state(), RunState::Idle);
    assert!(!s.is_sim_active());
    s.on_sim_start();
    assert_eq!(s.run_state(), RunState::Running);
    assert!(s.is_sim_active());
    s.on_sim_pause();
    assert_eq!(s.run_state(), RunState::Paused);
    assert!(!s.is_sim_active());
    s.on_sim_resume();
    assert!(s.is_sim_active());
    s.on_sim_stop();
    assert_eq!(s.run_state(), RunState::Done);
    assert!(!s.is_sim_active());
}

#[test]
fn state_updates() {
    let mut s = StatusBar::new();
    s.on_sim_start();
    assert_eq!(s.on_state_update(&SimStatus { step: 0, exit_reason: None, log_messages: vec![] }), StepNotice { new_step: false, refresh_rss: true });
    assert_eq!(s.on_state_update(&SimStatus { step: 7, exit_reason: None, log_messages: vec![] }), StepNotice { new_step: true, refresh_rss: false });
    assert_eq!(s.on_state_update(&SimStatus { step: 7, exit_reason: None, log_messages: vec![] }), StepNotice { new_step: false, refresh_rss: false });
    assert_eq!(s.on_state_update(&SimStatus { step: 20, exit_reason: Some("completed".to_string()), log_messages: vec![] }), StepNotice { new_step: true, refresh_rss: true });
    assert_eq!(s.run_state(), RunState::Done);
}

#[test]
fn rss_tick_every_thirty() {
    let mut s = StatusBar::new();
    let mut due = Vec::new();
    for i in 1..=90u32 {
        if s.tick_rss() {
            due.push(i);
        }
    }
    assert_eq!(due, vec![30, 60, 90]);
}

#[test]
fn scrub_and_name() {
    let mut s = StatusBar::new();
    s.set_scrub_position(Some((3, 10)));
    assert_eq!(s.scrub_position(), Some((3, 10)));
    s.set_scrub_position(None);
    assert_eq!(s.scrub_position(), None);
    s.set_config_name("plummer.toml".to_string());
    assert_eq!(s.config_name(), "plummer.toml");
}

#[test]
fn bar_labels() {
    assert_eq!(run_state_label(RunState::Idle), " ⏹ Idle");
    assert_eq!(run_state_label(RunState::Running), " ▶ Running");
    let mut s = StatusBar::new();
    assert!(!s.shows_progress());
    assert_eq!(s.scrub_label(), None);
    s.set_scrub_position(Some((9, 120)));
    assert_eq!(s.scrub_label(), Some(" SCRUB 10/120  [Backspace] live".to_string()));
    s.on_sim_start();
    assert!(s.shows_progress());
    s.on_sim_stop();
    assert!(s.shows_progress());
}
