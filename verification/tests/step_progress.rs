use phasma::action::Action;
use phasma::tabs::run_control::RunControlTab;
use phasma::tabs::step_progress::{
    active_item, build_phases, detect_integrator, phase_counts, progress_items, scroll_window, step_phases,
    Integrator, ItemState, ProgressItem, StepPhase,
};

use ItemState::{Active, Complete, Pending};

fn phase(label: &'static str, state: ItemState) -> ProgressItem {
    ProgressItem::Phase(label, state)
}

#[test]
fn building_marks_the_build_phase_under_way() {
    let items = progress_items(false, Integrator::Strang, StepPhase::BuildPoisson, false);
    assert_eq!(
        items,
        vec![
            phase("Domain", Complete),
            phase("IC generation", Complete),
            phase("Poisson solver", Active),
            phase("Integrator", Pending),
            phase("Exit conditions", Pending),
            phase("Assembly", Pending),
            ProgressItem::Separator,
            phase("Drift ½", Pending),
            phase("Poisson solve", Pending),
            phase("Kick", Pending),
            phase("Drift ½", Pending),
            phase("Post density", Pending),
            phase("Diagnostics", Pending),
        ]
    );
    assert_eq!(active_item(false, Integrator::Strang, StepPhase::BuildPoisson, false), Some(2));
    assert_eq!(phase_counts(false, Integrator::Strang, StepPhase::BuildPoisson, false), (2, 6, 33));
}

#[test]
fn stepping_marks_the_step_phase_under_way() {
    let items = progress_items(true, Integrator::Yoshida, StepPhase::YoshidaKick2, true);
    assert_eq!(items.len(), 6 + 1 + 10);
    assert!(items[..6].iter().all(|it| matches!(it, ProgressItem::Phase(_, Complete))));
    assert_eq!(items[6], ProgressItem::Separator);
    assert_eq!(items[7], phase("Drift 1", Complete));
    assert_eq!(items[9], phase("Drift 2", Complete));
    assert_eq!(items[10], phase("Kick 2", Active));
    assert_eq!(items[14], phase("LoMaC", Pending));
    assert_eq!(items[16], phase("Diagnostics", Pending));
    assert_eq!(active_item(true, Integrator::Yoshida, StepPhase::YoshidaKick2, true), Some(10));
    assert_eq!(phase_counts(true, Integrator::Yoshida, StepPhase::YoshidaKick2, true), (3, 10, 30));
    let active: Vec<usize> = (0..items.len())
        .filter(|&i| matches!(items[i], ProgressItem::Phase(_, ItemState::Active)))
        .collect();
    assert_eq!(active, vec![10]);
}

#[test]
fn a_complete_step_has_every_phase_done() {
    let items = progress_items(true, Integrator::Lie, StepPhase::StepComplete, false);
    assert!(items.iter().all(|it| !matches!(it, ProgressItem::Phase(_, Active | Pending))));
    assert_eq!(active_item(true, Integrator::Lie, StepPhase::StepComplete, false), None);
    assert_eq!(phase_counts(true, Integrator::Lie, StepPhase::StepComplete, false), (4, 4, 100));
    assert_eq!(phase_counts(true, Integrator::Lie, StepPhase::Other, false), (0, 4, 0));
}

#[test]
fn phase_lists() {
    assert_eq!(build_phases().len(), 6);
    let unsplit: Vec<&str> = step_phases(Integrator::Unsplit(5), false).iter().map(|e| e.1).collect();
    assert_eq!(unsplit, vec!["Stage 1", "Stage 2", "Stage 3", "Stage 4", "Stage ?", "Post density", "Diagnostics"]);
    assert_eq!(step_phases(Integrator::Unsplit(5), false)[4].0, None);
    let rkei: Vec<&str> = step_phases(Integrator::Rkei, true).iter().map(|e| e.1).collect();
    assert_eq!(rkei, vec!["Stage 1", "Stage 2", "Stage 3", "LoMaC", "Post density", "Diagnostics"]);
}

#[test]
fn integrator_detection() {
    assert_eq!(detect_integrator(Integrator::Strang, StepPhase::DriftHalf1, 2), Integrator::Lie);
    assert_eq!(detect_integrator(Integrator::Lie, StepPhase::Kick, 4), Integrator::Strang);
    assert_eq!(detect_integrator(Integrator::Lie, StepPhase::PostDensity, 4), Integrator::Lie);
    assert_eq!(detect_integrator(Integrator::Strang, StepPhase::UnsplitStage2, 3), Integrator::Unsplit(3));
    assert_eq!(detect_integrator(Integrator::Strang, StepPhase::YoshidaDrift4, 7), Integrator::Yoshida);
    assert_eq!(detect_integrator(Integrator::Yoshida, StepPhase::ComputeDensity, 7), Integrator::Strang);
    assert_eq!(detect_integrator(Integrator::Rkei, StepPhase::BuildAssembly, 0), Integrator::Rkei);
    assert!(StepPhase::BuildIC.is_build());
    assert!(!StepPhase::Idle.is_build());
}

#[test]
fn tab_latches_build_and_keeps_guess() {
    let mut tab = RunControlTab::new();
    assert_eq!(tab.integrator(), Integrator::Strang);
    tab.observe_phase(StepPhase::BuildDomain, 0);
    assert!(!tab.build_complete());
    tab.observe_phase(StepPhase::Idle, 0);
    assert!(!tab.build_complete());
    tab.observe_phase(StepPhase::Kick, 2);
    assert!(tab.build_complete());
    assert_eq!(tab.integrator(), Integrator::Lie);
    tab.observe_phase(StepPhase::Diagnostics, 2);
    tab.observe_phase(StepPhase::BuildDomain, 2);
    assert!(tab.build_complete());
    assert_eq!(tab.integrator(), Integrator::Lie);
    tab.update(&Action::SimRestart);
    assert!(!tab.build_complete());
    assert_eq!(tab.integrator(), Integrator::Lie);
}

#[test]
fn window_keeps_focus_visible() {
    assert_eq!(scroll_window(10, 20, 3), (0, 10));
    assert_eq!(scroll_window(20, 6, 0), (0, 4));
    assert_eq!(scroll_window(20, 6, 19), (16, 20));
    assert_eq!(scroll_window(20, 6, 10), (9, 12));
    for total in 0..30usize {
        for lines in 4..35usize {
            for focus in 0..total {
                let (s, e) = scroll_window(total, lines, focus);
                assert!(s <= focus && focus < e && e <= total);
            }
        }
    }
}

#[test]
fn window_too_short_for_markers() {
    assert_eq!(scroll_window(5, 2, 3), (3, 3));
    assert_eq!(scroll_window(5, 0, 0), (0, 0));
}
