use phasma::plt_bridge::{ColormapState, NormMode, ThemeState};

#[test]
fn theme_new_finds_preset() {
    let t = ThemeState::new("gruvbox");
    assert_eq!(t.name(), "gruvbox");
    assert_eq!(t.index(), 3);
}

#[test]
fn theme_new_unknown_falls_back_to_first() {
    let t = ThemeState::new("no-such-theme");
    assert_eq!(t.name(), "dark");
    assert_eq!(t.index(), 0);
    let d = ThemeState::default();
    assert_eq!(d.name(), "dark");
}

#[test]
fn theme_cycles_both_ways() {
    let mut t = ThemeState::new("publication");
    t.next();
    assert_eq!(t.name(), "dark");
    assert_eq!(t.index(), 0);
    t.prev();
    assert_eq!(t.name(), "publication");
    assert_eq!(t.index(), 5);
    t.prev();
    assert_eq!(t.name(), "minimal");
}

#[test]
fn theme_next_then_prev_is_identity() {
    for name in ["dark", "light", "solarized", "gruvbox", "minimal", "publication"] {
        let mut t = ThemeState::new(name);
        t.next();
        t.prev();
        assert_eq!(t.name(), name);
    }
}

#[test]
fn theme_set_known_and_unknown() {
    let mut t = ThemeState::default();
    t.set("solarized");
    assert_eq!(t.name(), "solarized");
    assert_eq!(t.index(), 2);
    t.set("nope");
    assert_eq!(t.name(), "solarized");
    assert_eq!(t.index(), 2);
}

#[test]
fn colormap_defaults_and_wraps() {
    let mut c = ColormapState::default();
    assert_eq!(c.name(), "viridis");
    assert_eq!(c.index(), 0);
    c.prev();
    assert_eq!(c.name(), "cubehelix");
    assert_eq!(c.index(), 54);
    c.next();
    assert_eq!(c.name(), "viridis");
    c.set("turbo");
    assert_eq!(c.name(), "turbo");
    assert_eq!(c.index(), 42);
    assert_eq!(ColormapState::new("jet").index(), 41);
    assert_eq!(ColormapState::new("???").name(), "viridis");
}

#[test]
fn colormap_all_names() {
    let names = ColormapState::all_names();
    assert_eq!(names.len(), 55);
    assert_eq!(names[0], "viridis");
    assert_eq!(names[54], "cubehelix");
}

#[test]
fn norm_mode_cycles_with_tags() {
    let m = NormMode::default();
    assert_eq!(m, NormMode::Linear);
    assert_eq!(m.tag(), "");
    assert_eq!(m.next(), NormMode::Log);
    assert_eq!(m.next().tag(), " [log]");
    assert_eq!(m.next().next().tag(), " [sqrt]");
    assert_eq!(m.next().next().next().tag(), " [asinh]");
    assert_eq!(m.next().next().next().next(), NormMode::Linear);
}
