use phasma::guard::TerminalGuard;
use phasma::help::HelpOverlay;
use phasma::layout::{bottom_row, centered_rect, heatmap_too_small, panel_too_small, LayoutMode, Rect, ResponsiveLayout, Size};

#[test]
fn minimum_panel_sizes() {
    assert!(panel_too_small(Rect::new(0, 0, 19, 10)));
    assert!(panel_too_small(Rect::new(0, 0, 30, 5)));
    assert!(!panel_too_small(Rect::new(0, 0, 20, 6)));
    assert!(heatmap_too_small(Rect::new(0, 0, 9, 10)));
    assert!(heatmap_too_small(Rect::new(0, 0, 10, 4)));
    assert!(!heatmap_too_small(Rect::new(3, 3, 10, 5)));
}

#[test]
fn standard_layout_regions() {
    let l = ResponsiveLayout::compute(Size::new(100, 40));
    assert_eq!(l.mode, LayoutMode::Standard);
    assert_eq!(l.status_area, Rect::new(0, 0, 100, 1));
    assert_eq!(l.tab_bar_area, Rect::new(0, 1, 100, 1));
    assert_eq!(l.content_area, Rect::new(0, 2, 100, 36));
    assert_eq!(l.footer_area, Rect::new(0, 38, 100, 2));
}

#[test]
fn compact_and_wide_modes() {
    let c = ResponsiveLayout::compute(Size::new(79, 30));
    assert_eq!(c.mode, LayoutMode::Compact);
    assert_eq!(c.footer_area, Rect::new(0, 0, 0, 0));
    assert_eq!(c.content_area, Rect::new(0, 2, 79, 28));
    assert_eq!(ResponsiveLayout::compute(Size::new(80, 30)).mode, LayoutMode::Standard);
    assert_eq!(ResponsiveLayout::compute(Size::new(80, 24)).mode, LayoutMode::Standard);
    assert_eq!(ResponsiveLayout::compute(Size::new(100, 23)).mode, LayoutMode::Compact);
    assert_eq!(ResponsiveLayout::compute(Size::new(159, 49)).mode, LayoutMode::Standard);
    assert_eq!(ResponsiveLayout::compute(Size::new(160, 30)).mode, LayoutMode::Standard);
    assert_eq!(ResponsiveLayout::compute(Size::new(200, 49)).mode, LayoutMode::Standard);
    assert_eq!(ResponsiveLayout::compute(Size::new(160, 50)).mode, LayoutMode::Wide);
    let w = ResponsiveLayout::compute(Size::new(200, 60));
    assert_eq!(w.mode, LayoutMode::Wide);
    assert_eq!(w.footer_area, Rect::new(0, 58, 200, 2));
}

#[test]
fn guard_thresholds() {
    let g = TerminalGuard::default();
    assert_eq!((g.min_cols(), g.min_rows()), (80, 24));
    assert!(g.too_small(Size::new(79, 24)));
    assert!(g.too_small(Size::new(80, 23)));
    assert!(!g.too_small(Size::new(80, 24)));
    let g = TerminalGuard::new(40, 12);
    assert!(!g.too_small(Size::new(40, 12)));
    assert!(g.too_small(Size::new(39, 100)));
}

#[test]
fn help_scroll_and_toggle() {
    let mut h = HelpOverlay::new();
    assert!(!h.is_visible());
    h.toggle();
    assert!(h.is_visible());
    h.scroll_up();
    assert_eq!(h.scroll(), 0);
    h.scroll_down();
    h.scroll_down();
    assert_eq!(h.scroll(), 2);
    h.scroll_up();
    assert_eq!(h.scroll(), 1);
    h.toggle();
    assert!(!h.is_visible());
    assert_eq!(h.scroll(), 0);
    for _ in 0..70000 {
        h.scroll_down();
    }
    assert_eq!(h.scroll(), u16::MAX);
}

#[test]
fn overlays_are_centred() {
    use_centered();
}

fn use_centered() {
    let area = Rect::new(0, 0, 100, 40);
    assert_eq!(centered_rect(area, 62, 56), Rect::new(19, 0, 62, 40));
    assert_eq!(centered_rect(area, 40, 14), Rect::new(30, 13, 40, 14));
    assert_eq!(centered_rect(Rect::new(5, 5, 10, 4), 40, 14), Rect::new(5, 5, 10, 4));
    assert_eq!(bottom_row(area), Rect::new(0, 39, 100, 1));
    assert_eq!(bottom_row(Rect::new(2, 3, 7, 0)), Rect::new(2, 3, 7, 1));
}
