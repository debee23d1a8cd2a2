use phasma::plt_bridge::NormMode;
use phasma::tabs::controls::{DensityControls, PhaseSpaceControls};
use phasma::tabs::density::ContourMode;
use phasma::layout::Rect;
use phasma::tabs::heatmap_panels::{
    density_areas, density_marginals_fit, density_title, hidden_dims, info_strip_fits, phase_marginals,
    phase_space_areas, phase_title, Marginals,
};

#[test]
fn density_titles() {
    let mut d = DensityControls::new();
    assert_eq!(density_title(&d, false), " ρ(x,y)  [z-projection] ");
    d.axis = 0;
    d.norm_mode = NormMode::Log;
    d.contour_mode = ContourMode::HeatmapContour;
    d.show_acceleration = true;
    d.show_streamlines = true;
    d.show_inset = true;
    assert_eq!(
        density_title(&d, true),
        " ρ(y,z)  [x-projection] [log] [contour] [accel] [stream] [inset] "
    );
    assert_eq!(
        density_title(&d, false),
        " ρ(y,z)  [x-projection] [log] [contour] [accel] [stream] "
    );
    d.axis = 7;
    d.show_acceleration = false;
    d.show_streamlines = false;
    d.norm_mode = NormMode::Linear;
    d.contour_mode = ContourMode::FilledContour;
    assert_eq!(density_title(&d, true), " ρ(x,y)  [z-projection] [filled] [inset] ");
}

#[test]
fn phase_titles() {
    let mut p = PhaseSpaceControls::new();
    assert_eq!(phase_title(&p, "", false), " f(x, vx)");
    p.dim_x = 1;
    p.dim_v = 2;
    p.norm_mode = NormMode::Asinh;
    p.show_inset = true;
    assert_eq!(phase_title(&p, " [s1=+0.5]", true), " f(y, vz) [asinh] [s1=+0.5] [inset]");
    assert_eq!(phase_title(&p, "", false), " f(y, vz) [asinh]");
}

#[test]
fn strips_fit_by_size() {
    assert!(info_strip_fits(true, 5));
    assert!(!info_strip_fits(true, 4));
    assert!(!info_strip_fits(false, 40));
    assert!(density_marginals_fit(true, 40, 12));
    assert!(!density_marginals_fit(true, 39, 12));
    assert!(!density_marginals_fit(true, 40, 11));
    assert_eq!(phase_marginals(true, 50, 15), Marginals::Joint);
    assert_eq!(phase_marginals(true, 50, 14), Marginals::Side);
    assert_eq!(phase_marginals(true, 49, 40), Marginals::Neither);
    assert_eq!(phase_marginals(false, 80, 40), Marginals::Neither);
}

#[test]
fn hidden_dimensions_are_the_other_four() {
    assert_eq!(hidden_dims(0, 0), vec![1, 2, 4, 5]);
    assert_eq!(hidden_dims(2, 1), vec![0, 1, 3, 5]);
    for x in 0..3u8 {
        for v in 0..3u8 {
            let h = hidden_dims(x, v);
            assert_eq!(h.len(), 4);
            let expected: Vec<u8> = (0..6).filter(|&d| d != x && d != 3 + v).collect();
            assert_eq!(h, expected);
        }
    }
}

fn r(x: u16, y: u16, w: u16, h: u16) -> Rect {
    Rect::new(x, y, w, h)
}

#[test]
fn density_areas_split_like_the_layout() {
    let mut d = DensityControls::new();
    let a = density_areas(r(0, 2, 100, 40), &d);
    assert_eq!(a.heatmap, r(0, 2, 100, 37));
    assert_eq!(a.info, Some(r(0, 39, 100, 3)));
    assert_eq!((a.top_strip, a.right_strip), (None, None));
    d.show_marginals = true;
    d.show_info = false;
    let a = density_areas(r(0, 2, 100, 40), &d);
    assert_eq!(a.top_strip, Some(r(0, 2, 100, 5)));
    assert_eq!(a.heatmap, r(0, 7, 80, 35));
    assert_eq!(a.right_strip, Some(r(80, 7, 20, 35)));
    assert_eq!(a.info, None);
    let small = density_areas(r(0, 0, 39, 40), &d);
    assert_eq!(small.heatmap, r(0, 0, 39, 40));
}

#[test]
fn phase_space_areas_split_like_the_layout() {
    let mut p = PhaseSpaceControls::new();
    p.show_vel_histogram = true;
    let a = phase_space_areas(r(0, 0, 100, 43), &p);
    assert_eq!(a.info, Some(r(0, 40, 100, 3)));
    assert_eq!(a.top_strip, Some(r(0, 0, 100, 6)));
    assert_eq!(a.heatmap, r(0, 6, 70, 34));
    assert_eq!(a.right_strip, Some(r(70, 6, 30, 34)));
    p.show_info = false;
    let side = phase_space_areas(r(0, 0, 60, 10), &p);
    assert_eq!(side.top_strip, None);
    assert_eq!(side.heatmap, r(0, 0, 42, 10));
    assert_eq!(side.right_strip, Some(r(42, 0, 18, 10)));
}
