use phasma::action::Action;
use phasma::keys::{KeyCode, KeyEvent};
use phasma::plt_bridge::NormMode;
use phasma::tabs::controls::{
    DensityControls, EnergyControls, HistNorm, PerformanceControls, PhaseSpaceControls, ProfileKind,
    ProfileLayout, ProfilesControls, RankControls, ViewRequest,
};
use phasma::tabs::density::ContourMode;

fn ch(c: char) -> KeyEvent {
    KeyEvent::plain(KeyCode::Char(c))
}

#[test]
fn density_keys() {
    let mut d = DensityControls::new();
    assert_eq!(d.axis, 2);
    assert_eq!(d.handle_key_event(ch('1')), ViewRequest::Nothing);
    assert_eq!(d.axis, 0);
    d.handle_key_event(ch('l'));
    assert_eq!(d.norm_mode, NormMode::Log);
    d.handle_key_event(ch('n'));
    assert_eq!(d.contour_mode, ContourMode::HeatmapContour);
    assert_eq!(d.handle_key_event(ch('+')), ViewRequest::Zoom('+'));
    d.handle_key_event(ch('y'));
    assert_eq!(d.axis, 1);
    d.handle_key_event(ch('z'));
    assert_eq!(d.axis, 2);
    d.handle_key_event(ch('x'));
    assert_eq!(d.axis, 0);
    d.update(&Action::VizToggleLog);
    assert_eq!(d.norm_mode, NormMode::Sqrt);
    d.handle_key_event(ch('i'));
    assert!(!d.show_info);
}

#[test]
fn phase_space_keys() {
    let mut p = PhaseSpaceControls::new();
    // The physical aspect ratio is on by default; `p` toggles it.
    assert!(p.physical_aspect);
    p.handle_key_event(ch('p'));
    assert!(!p.physical_aspect);
    p.handle_key_event(ch('3'));
    p.handle_key_event(ch('5'));
    assert_eq!((p.dim_x, p.dim_v), (2, 1));
    assert_eq!(p.handle_key_event(ch('(')), ViewRequest::Slice(1, false));
    assert_eq!(p.handle_key_event(ch('>')), ViewRequest::Slice(3, true));
    assert_eq!(p.handle_key_event(ch('0')), ViewRequest::Zoom('0'));
    p.handle_key_event(ch('K'));
    p.handle_key_event(ch('K'));
    p.handle_key_event(ch('K'));
    assert_eq!(p.kde_kernel, 1);
    assert_eq!(p.handle_key_event(ch('d')), ViewRequest::Nothing);
    assert_eq!(p.handle_key_event(ch('d')), ViewRequest::ClearBrush);
}

#[test]
fn energy_keys() {
    let mut e = EnergyControls::new();
    e.handle_key_event(ch('t'));
    assert!(!e.total_energy);
    e.handle_key_event(ch('7'));
    assert_eq!(e.selected_panel, 6);
    e.handle_key_event(ch('8'));
    assert_eq!(e.selected_panel, 6);
    assert_eq!(e.handle_key_event(ch('H')), ViewRequest::Expand);
    assert_eq!(e.handle_key_event(ch('f')), ViewRequest::FitAll);
}

#[test]
fn profiles_keys() {
    let mut p = ProfilesControls::new();
    assert_eq!(p.bins(), 64);
    p.handle_key_event(ch('b'));
    assert_eq!(p.bins(), 128);
    p.handle_key_event(ch('b'));
    assert_eq!(p.bins(), 16);
    p.handle_key_event(ch('4'));
    assert_eq!(p.kind, ProfileKind::Velocity);
    p.handle_key_event(ch('s'));
    assert_eq!(p.layout, ProfileLayout::Single);
}

#[test]
fn performance_and_rank_keys() {
    let mut p = PerformanceControls::new();
    p.handle_key_event(ch('n'));
    assert_eq!(p.hist_norm, HistNorm::Density);
    p.handle_key_event(ch('v'));
    p.handle_key_event(ch('v'));
    p.handle_key_event(ch('v'));
    assert_eq!(p.dist_mode, 0);
    let mut r = RankControls::new();
    r.handle_key_event(ch('N'));
    assert_eq!(r.selected_node, 10);
    r.handle_key_event(ch('n'));
    assert_eq!(r.selected_node, 0);
}
