//! The view settings of the plotting tabs and the keys that change them.
//! What a key asks of the floating-point view state (zoom, slice offsets,
//! time window) is returned as a request for the caller to apply.

use vstd::prelude::*;

use crate::action::Action;
use crate::keys::{KeyCode, KeyEvent};
use crate::plt_bridge::{norm_next, NormMode};
use crate::tabs::density::{contour_next, ContourMode};

verus! {

/// A change of the floating-point view state that a key asks for.
#[derive(Clone, Copy, Debug, PartialEq, Eq, Structural)]
pub enum ViewRequest {
    /// Nothing beyond the settings.
    Nothing,
    /// Apply the zoom key (`+`, `-`, `r` or `0`).
    Zoom(char),
    /// Forget the brush selection and its start.
    ClearBrush,
    /// Move the slice through the given hidden dimension (0 to 3) by a tenth,
    /// up or down.
    Slice(u8, bool),
    /// Scroll the time window left.
    ScrollLeft,
    /// Scroll the time window right.
    ScrollRight,
    /// Widen the time window.
    Expand,
    /// Narrow the time window.
    Contract,
    /// Fit the time window to all data.
    FitAll,
}

/// Whether a key is one of the zoom keys.
pub open spec fn is_zoom_char(c: char) -> bool {
    c == '+' || c == '-' || c == 'r' || c == '0'
}

// ── Density ────────────────────────────────────────────────────────────

/// The density tab's view settings.
#[derive(Clone, Copy, Debug, PartialEq, Eq, Structural)]
pub struct DensityControls {
    /// Projection axis: 0 = yz, 1 = xz, 2 = xy.
    pub axis: u8,
    pub norm_mode: NormMode,
    pub show_marginals: bool,
    pub show_info: bool,
    pub contour_mode: ContourMode,
    pub show_acceleration: bool,
    pub show_streamlines: bool,
    pub show_inset: bool,
}

/// The settings after a key on the density tab and the request it makes:
/// `x`, `y`, `z` (or `1`, `2`, `3`) pick the projection axis, `l` the next
/// scale, `i` the info bar, `n` the contour mode, `m` the marginals, the zoom
/// keys ask to zoom, `g` the acceleration overlay, `f` the streamlines, `I`
/// the inset.
pub open spec fn density_key_step(d: DensityControls, code: KeyCode) -> (DensityControls, ViewRequest) {
    match code {
        KeyCode::Char(c) => if c == 'x' || c == '1' {
            (DensityControls { axis: 0, ..d }, ViewRequest::Nothing)
        } else if c == 'y' || c == '2' {
            (DensityControls { axis: 1, ..d }, ViewRequest::Nothing)
        } else if c == 'z' || c == '3' {
            (DensityControls { axis: 2, ..d }, ViewRequest::Nothing)
        } else if c == 'l' {
            (DensityControls { norm_mode: norm_next(d.norm_mode), ..d }, ViewRequest::Nothing)
        } else if c == 'i' {
            (DensityControls { show_info: !d.show_info, ..d }, ViewRequest::Nothing)
        } else if c == 'n' {
            (DensityControls { contour_mode: contour_next(d.contour_mode), ..d }, ViewRequest::Nothing)
        } else if c == 'm' {
            (DensityControls { show_marginals: !d.show_marginals, ..d }, ViewRequest::Nothing)
        } else if is_zoom_char(c) {
            (d, ViewRequest::Zoom(c))
        } else if c == 'g' {
            (DensityControls { show_acceleration: !d.show_acceleration, ..d }, ViewRequest::Nothing)
        } else if c == 'f' {
            (DensityControls { show_streamlines: !d.show_streamlines, ..d }, ViewRequest::Nothing)
        } else if c == 'I' {
            (DensityControls { show_inset: !d.show_inset, ..d }, ViewRequest::Nothing)
        } else {
            (d, ViewRequest::Nothing)
        },
        _ => (d, ViewRequest::Nothing),
    }
}

/// The density tab's settings at start.
pub open spec fn initial_density() -> DensityControls {
    DensityControls {
        axis: 2,
        norm_mode: NormMode::Linear,
        show_marginals: false,
        show_info: true,
        contour_mode: ContourMode::HeatmapOnly,
        show_acceleration: false,
        show_streamlines: false,
        show_inset: false,
    }
}

impl DensityControls {
    /// The xy projection, linear scale, info bar shown, nothing overlaid.
    pub fn new() -> (d: DensityControls)
        ensures
            d == initial_density(),
    {
        DensityControls {
            axis: 2,
            norm_mode: NormMode::Linear,
            show_marginals: false,
            show_info: true,
            contour_mode: ContourMode::HeatmapOnly,
            show_acceleration: false,
            show_streamlines: false,
            show_inset: false,
        }
    }

    /// Handles a key: see `density_key_step`.
    pub fn handle_key_event(&mut self, key: KeyEvent) -> (r: ViewRequest)
        ensures
            (*final(self), r) == density_key_step(*old(self), key.code),
    {
        match key.code {
            KeyCode::Char(c) => {
                if c == 'x' || c == '1' {
                    self.axis = 0;
                } else if c == 'y' || c == '2' {
                    self.axis = 1;
                } else if c == 'z' || c == '3' {
                    self.axis = 2;
                } else if c == 'l' {
                    self.norm_mode = self.norm_mode.next();
                } else if c == 'i' {
                    self.show_info = !self.show_info;
                } else if c == 'n' {
                    self.contour_mode = self.contour_mode.next();
                } else if c == 'm' {
                    self.show_marginals = !self.show_marginals;
                } else if c == '+' || c == '-' || c == 'r' || c == '0' {
                    return ViewRequest::Zoom(c);
                } else if c == 'g' {
                    self.show_acceleration = !self.show_acceleration;
                } else if c == 'f' {
                    self.show_streamlines = !self.show_streamlines;
                } else if c == 'I' {
                    self.show_inset = !self.show_inset;
                }
                ViewRequest::Nothing
            },
            _ => ViewRequest::Nothing,
        }
    }

    /// Follows an action: toggling the log scale moves to the next
    /// normalization.
    pub fn update(&mut self, action: &Action)
        ensures
            *final(self) == (if *action == Action::VizToggleLog {
                DensityControls { norm_mode: norm_next(old(self).norm_mode), ..*old(self) }
            } else {
                *old(self)
            }),
    {
        if let Action::VizToggleLog = action {
            self.norm_mode = self.norm_mode.next();
        }
    }
}

// ── Phase space ────────────────────────────────────────────────────────

/// The phase-space tab's view settings.
#[derive(Clone, Copy, Debug, PartialEq, Eq, Structural)]
pub struct PhaseSpaceControls {
    /// Spatial dimension on the x axis (0 = x₁, 1 = x₂, 2 = x₃).
    pub dim_x: u8,
    /// Velocity dimension on the y axis (0 = v₁, 1 = v₂, 2 = v₃).
    pub dim_v: u8,
    pub norm_mode: NormMode,
    pub show_info: bool,
    pub physical_aspect: bool,
    pub show_stream_count: bool,
    pub hexbin_mode: bool,
    pub show_inset: bool,
    pub show_vel_histogram: bool,
    /// KDE kernel: 0 = Gaussian, 1 = Epanechnikov.
    pub kde_kernel: u8,
    /// KDE bandwidth method: 0 = Silverman, 1 = Scott.
    pub kde_bandwidth: u8,
    pub brush_mode: bool,
}

/// The slice move that a key asks for: `,`/`.` the first hidden dimension,
/// `(`/`)` the second, `{`/`}` the third, `<`/`>` the fourth.
pub open spec fn slice_key(c: char) -> Option<(u8, bool)> {
    if c == ',' {
        Some((0u8, false))
    } else if c == '.' {
        Some((0u8, true))
    } else if c == '(' {
        Some((1u8, false))
    } else if c == ')' {
        Some((1u8, true))
    } else if c == '{' {
        Some((2u8, false))
    } else if c == '}' {
        Some((2u8, true))
    } else if c == '<' {
        Some((3u8, false))
    } else if c == '>' {
        Some((3u8, true))
    } else {
        None
    }
}

/// The settings after a key on the phase-space tab and the request it makes.
pub open spec fn phase_key_step(p: PhaseSpaceControls, code: KeyCode) -> (PhaseSpaceControls, ViewRequest) {
    match code {
        KeyCode::Char(c) => if '1' <= c && c <= '3' {
            (PhaseSpaceControls { dim_x: (c as u32 - '1' as u32) as u8, ..p }, ViewRequest::Nothing)
        } else if '4' <= c && c <= '6' {
            (PhaseSpaceControls { dim_v: (c as u32 - '4' as u32) as u8, ..p }, ViewRequest::Nothing)
        } else if c == 'l' {
            (PhaseSpaceControls { norm_mode: norm_next(p.norm_mode), ..p }, ViewRequest::Nothing)
        } else if c == 'i' {
            (PhaseSpaceControls { show_info: !p.show_info, ..p }, ViewRequest::Nothing)
        } else if is_zoom_char(c) {
            (p, ViewRequest::Zoom(c))
        } else if slice_key(c) is Some {
            let (dim, up) = slice_key(c).unwrap();
            (p, ViewRequest::Slice(dim, up))
        } else if c == 'p' {
            (PhaseSpaceControls { physical_aspect: !p.physical_aspect, ..p }, ViewRequest::Nothing)
        } else if c == 's' {
            (PhaseSpaceControls { show_stream_count: !p.show_stream_count, ..p }, ViewRequest::Nothing)
        } else if c == 'v' {
            (PhaseSpaceControls { show_vel_histogram: !p.show_vel_histogram, ..p }, ViewRequest::Nothing)
        } else if c == 'x' {
            (PhaseSpaceControls { hexbin_mode: !p.hexbin_mode, ..p }, ViewRequest::Nothing)
        } else if c == 'K' {
            (PhaseSpaceControls { kde_kernel: ((p.kde_kernel + 1) % 2) as u8, ..p }, ViewRequest::Nothing)
        } else if c == 'B' {
            (PhaseSpaceControls { kde_bandwidth: ((p.kde_bandwidth + 1) % 2) as u8, ..p }, ViewRequest::Nothing)
        } else if c == 'I' {
            (PhaseSpaceControls { show_inset: !p.show_inset, ..p }, ViewRequest::Nothing)
        } else if c == 'd' {
            (
                PhaseSpaceControls { brush_mode: !p.brush_mode, ..p },
                if p.brush_mode { ViewRequest::ClearBrush } else { ViewRequest::Nothing },
            )
        } else {
            (p, ViewRequest::Nothing)
        },
        _ => (p, ViewRequest::Nothing),
    }
}

/// The phase-space tab's settings at start.
pub open spec fn initial_phase_space() -> PhaseSpaceControls {
    PhaseSpaceControls {
        dim_x: 0,
        dim_v: 0,
        norm_mode: NormMode::Linear,
        show_info: true,
        physical_aspect: true,
        show_stream_count: false,
        hexbin_mode: false,
        show_inset: false,
        show_vel_histogram: false,
        kde_kernel: 0,
        kde_bandwidth: 0,
        brush_mode: false,
    }
}

impl PhaseSpaceControls {
    /// x₁ against v₁, linear scale, info bar shown, the physical aspect
    /// ratio kept, no overlays.
    pub fn new() -> (p: PhaseSpaceControls)
        ensures
            p == initial_phase_space(),
    {
        PhaseSpaceControls {
            dim_x: 0,
            dim_v: 0,
            norm_mode: NormMode::Linear,
            show_info: true,
            physical_aspect: true,
            show_stream_count: false,
            hexbin_mode: false,
            show_inset: false,
            show_vel_histogram: false,
            kde_kernel: 0,
            kde_bandwidth: 0,
            brush_mode: false,
        }
    }

    /// Handles a key: see `phase_key_step`.
    pub fn handle_key_event(&mut self, key: KeyEvent) -> (r: ViewRequest)
        ensures
            (*final(self), r) == phase_key_step(*old(self), key.code),
    {
        match key.code {
            KeyCode::Char(c) => {
                if c == '1' {
                    self.dim_x = 0;
                } else if c == '2' {
                    self.dim_x = 1;
                } else if c == '3' {
                    self.dim_x = 2;
                } else if c == '4' {
                    self.dim_v = 0;
                } else if c == '5' {
                    self.dim_v = 1;
                } else if c == '6' {
                    self.dim_v = 2;
                } else if c == 'l' {
                    self.norm_mode = self.norm_mode.next();
                } else if c == 'i' {
                    self.show_info = !self.show_info;
                } else if c == '+' || c == '-' || c == 'r' || c == '0' {
                    return ViewRequest::Zoom(c);
                } else if c == ',' {
                    return ViewRequest::Slice(0, false);
                } else if c == '.' {
                    return ViewRequest::Slice(0, true);
                } else if c == '(' {
                    return ViewRequest::Slice(1, false);
                } else if c == ')' {
                    return ViewRequest::Slice(1, true);
                } else if c == '{' {
                    return ViewRequest::Slice(2, false);
                } else if c == '}' {
                    return ViewRequest::Slice(2, true);
                } else if c == '<' {
                    return ViewRequest::Slice(3, false);
                } else if c == '>' {
                    return ViewRequest::Slice(3, true);
                } else if c == 'p' {
                    self.physical_aspect = !self.physical_aspect;
                } else if c == 's' {
                    self.show_stream_count = !self.show_stream_count;
                } else if c == 'v' {
                    self.show_vel_histogram = !self.show_vel_histogram;
                } else if c == 'x' {
                    self.hexbin_mode = !self.hexbin_mode;
                } else if c == 'K' {
                    self.kde_kernel = (self.kde_kernel % 2 + 1) % 2;
                    assert(self.kde_kernel == (old(self).kde_kernel + 1) % 2);
                } else if c == 'B' {
                    self.kde_bandwidth = (self.kde_bandwidth % 2 + 1) % 2;
                    assert(self.kde_bandwidth == (old(self).kde_bandwidth + 1) % 2);
                } else if c == 'I' {
                    self.show_inset = !self.show_inset;
                } else if c == 'd' {
                    self.brush_mode = !self.brush_mode;
                    if !self.brush_mode {
                        return ViewRequest::ClearBrush;
                    }
                }
                ViewRequest::Nothing
            },
            _ => ViewRequest::Nothing,
        }
    }

    /// Follows an action: toggling the log scale moves to the next
    /// normalization.
    pub fn update(&mut self, action: &Action)
        ensures
            *final(self) == (if *action == Action::VizToggleLog {
                PhaseSpaceControls { norm_mode: norm_next(old(self).norm_mode), ..*old(self) }
            } else {
                *old(self)
            }),
    {
        if let Action::VizToggleLog = action {
            self.norm_mode = self.norm_mode.next();
        }
    }
}

// ── Energy ─────────────────────────────────────────────────────────────

/// The energy tab's view settings.
#[derive(Clone, Copy, Debug, PartialEq, Eq, Structural)]
pub struct EnergyControls {
    pub total_energy: bool,
    pub kinetic_energy: bool,
    pub potential_energy: bool,
    /// Show fractional drift rather than absolute values.
    pub show_drift: bool,
    /// 0 = energy, 1 = mass, 2 = virial, 3 = entropy, 4 = PSD, 5 = momentum,
    /// 6 = spectrogram.
    pub selected_panel: u8,
    pub show_grid: bool,
    pub stacked_mode: bool,
}

/// The settings after a key on the energy tab and the request it makes.
pub open spec fn energy_key_step(e: EnergyControls, code: KeyCode) -> (EnergyControls, ViewRequest) {
    match code {
        KeyCode::Char(c) => if c == 't' {
            (EnergyControls { total_energy: !e.total_energy, ..e }, ViewRequest::Nothing)
        } else if c == 'k' {
            (EnergyControls { kinetic_energy: !e.kinetic_energy, ..e }, ViewRequest::Nothing)
        } else if c == 'w' {
            (EnergyControls { potential_energy: !e.potential_energy, ..e }, ViewRequest::Nothing)
        } else if c == 'd' {
            (EnergyControls { show_drift: !e.show_drift, ..e }, ViewRequest::Nothing)
        } else if c == 'g' {
            (EnergyControls { show_grid: !e.show_grid, ..e }, ViewRequest::Nothing)
        } else if '1' <= c && c <= '7' {
            (EnergyControls { selected_panel: (c as u32 - '1' as u32) as u8, ..e }, ViewRequest::Nothing)
        } else if c == 'S' {
            (EnergyControls { stacked_mode: !e.stacked_mode, ..e }, ViewRequest::Nothing)
        } else if c == 'h' {
            (e, ViewRequest::ScrollLeft)
        } else if c == 'l' {
            (e, ViewRequest::ScrollRight)
        } else if c == 'H' {
            (e, ViewRequest::Expand)
        } else if c == 'L' {
            (e, ViewRequest::Contract)
        } else if c == 'f' {
            (e, ViewRequest::FitAll)
        } else {
            (e, ViewRequest::Nothing)
        },
        _ => (e, ViewRequest::Nothing),
    }
}

/// The energy tab's settings at start.
pub open spec fn initial_energy() -> EnergyControls {
    EnergyControls {
        total_energy: true,
        kinetic_energy: true,
        potential_energy: true,
        show_drift: false,
        selected_panel: 0,
        show_grid: false,
        stacked_mode: false,
    }
}

impl EnergyControls {
    /// All three energy traces shown, the energy panel, absolute values.
    pub fn new() -> (e: EnergyControls)
        ensures
            e == initial_energy(),
    {
        EnergyControls {
            total_energy: true,
            kinetic_energy: true,
            potential_energy: true,
            show_drift: false,
            selected_panel: 0,
            show_grid: false,
            stacked_mode: false,
        }
    }

    /// Handles a key: see `energy_key_step`.
    pub fn handle_key_event(&mut self, key: KeyEvent) -> (r: ViewRequest)
        ensures
            (*final(self), r) == energy_key_step(*old(self), key.code),
    {
        match key.code {
            KeyCode::Char(c) => {
                let code = c as u32;
                if c == 't' {
                    self.total_energy = !self.total_energy;
                } else if c == 'k' {
                    self.kinetic_energy = !self.kinetic_energy;
                } else if c == 'w' {
                    self.potential_energy = !self.potential_energy;
                } else if c == 'd' {
                    self.show_drift = !self.show_drift;
                } else if c == 'g' {
                    self.show_grid = !self.show_grid;
                } else if '1' as u32 <= code && code <= '7' as u32 {
                    self.selected_panel = (code - '1' as u32) as u8;
                } else if c == 'S' {
                    self.stacked_mode = !self.stacked_mode;
                } else if c == 'h' {
                    return ViewRequest::ScrollLeft;
                } else if c == 'l' {
                    return ViewRequest::ScrollRight;
                } else if c == 'H' {
                    return ViewRequest::Expand;
                } else if c == 'L' {
                    return ViewRequest::Contract;
                } else if c == 'f' {
                    return ViewRequest::FitAll;
                }
                ViewRequest::Nothing
            },
            _ => ViewRequest::Nothing,
        }
    }
}

// ── Profiles ───────────────────────────────────────────────────────────

/// Which radial profile is shown.
#[derive(Default, Clone, Copy, Debug, PartialEq, Eq, Structural)]
pub enum ProfileKind {
    #[default]
    Density,
    Mass,
    Potential,
    Velocity,
    Anisotropy,
}

/// One profile at a time, or four stacked.
#[derive(Clone, Copy, Debug, PartialEq, Eq, Structural)]
pub enum ProfileLayout {
    Single,
    Stacked,
}

/// The number of radial bin presets.
pub const BIN_PRESET_COUNT: usize = 4;

/// The radial bin counts offered, in the order `b` cycles through them.
pub open spec fn bin_presets() -> Seq<usize> {
    seq![16usize, 32, 64, 128]
}

/// The profiles tab's view settings.
#[derive(Clone, Copy, Debug, PartialEq, Eq, Structural)]
pub struct ProfilesControls {
    pub kind: ProfileKind,
    pub log_scale: bool,
    pub show_analytic: bool,
    pub layout: ProfileLayout,
    /// Position in the bin presets.
    pub bin_preset_idx: usize,
}

/// The settings after a key on the profiles tab.
pub open spec fn profiles_key_step(p: ProfilesControls, code: KeyCode) -> ProfilesControls {
    match code {
        KeyCode::Char(c) => if c == '1' {
            ProfilesControls { kind: ProfileKind::Density, ..p }
        } else if c == '2' {
            ProfilesControls { kind: ProfileKind::Mass, ..p }
        } else if c == '3' {
            ProfilesControls { kind: ProfileKind::Potential, ..p }
        } else if c == '4' {
            ProfilesControls { kind: ProfileKind::Velocity, ..p }
        } else if c == '5' {
            ProfilesControls { kind: ProfileKind::Anisotropy, ..p }
        } else if c == 'l' {
            ProfilesControls { log_scale: !p.log_scale, ..p }
        } else if c == 'a' {
            ProfilesControls { show_analytic: !p.show_analytic, ..p }
        } else if c == 's' {
            ProfilesControls {
                layout: if p.layout == ProfileLayout::Single { ProfileLayout::Stacked } else { ProfileLayout::Single },
                ..p
            }
        } else if c == 'b' {
            ProfilesControls { bin_preset_idx: ((p.bin_preset_idx + 1) % (BIN_PRESET_COUNT as int)) as usize, ..p }
        } else {
            p
        },
        _ => p,
    }
}

/// The profiles tab's settings at start.
pub open spec fn initial_profiles() -> ProfilesControls {
    ProfilesControls {
        kind: ProfileKind::Density,
        log_scale: true,
        show_analytic: true,
        layout: ProfileLayout::Stacked,
        bin_preset_idx: 2,
    }
}

impl ProfilesControls {
    /// The density profile, log scale, analytic overlay, stacked, 64 bins.
    pub fn new() -> (p: ProfilesControls)
        ensures
            p == initial_profiles(),
    {
        ProfilesControls {
            kind: ProfileKind::Density,
            log_scale: true,
            show_analytic: true,
            layout: ProfileLayout::Stacked,
            bin_preset_idx: 2,
        }
    }

    /// The number of radial bins selected.
    pub fn bins(&self) -> (n: usize)
        requires
            self.bin_preset_idx < BIN_PRESET_COUNT,
        ensures
            n == bin_presets()[self.bin_preset_idx as int],
    {
        match self.bin_preset_idx {
            0 => 16,
            1 => 32,
            2 => 64,
            _ => 128,
        }
    }

    /// Handles a key: see `profiles_key_step`. The tab asks for no action.
    pub fn handle_key_event(&mut self, key: KeyEvent) -> (a: Option<Action>)
        ensures
            *final(self) == profiles_key_step(*old(self), key.code),
            a is None,
    {
        match key.code {
            KeyCode::Char(c) => {
                if c == '1' {
                    self.kind = ProfileKind::Density;
                } else if c == '2' {
                    self.kind = ProfileKind::Mass;
                } else if c == '3' {
                    self.kind = ProfileKind::Potential;
                } else if c == '4' {
                    self.kind = ProfileKind::Velocity;
                } else if c == '5' {
                    self.kind = ProfileKind::Anisotropy;
                } else if c == 'l' {
                    self.log_scale = !self.log_scale;
                } else if c == 'a' {
                    self.show_analytic = !self.show_analytic;
                } else if c == 's' {
                    self.layout = match self.layout {
                        ProfileLayout::Single => ProfileLayout::Stacked,
                        ProfileLayout::Stacked => ProfileLayout::Single,
                    };
                } else if c == 'b' {
                    self.bin_preset_idx = (self.bin_preset_idx % BIN_PRESET_COUNT + 1) % BIN_PRESET_COUNT;
                    assert(self.bin_preset_idx == (old(self).bin_preset_idx + 1) % (BIN_PRESET_COUNT as int));
                }
                None
            },
            _ => None,
        }
    }
}

// ── Performance ────────────────────────────────────────────────────────

/// How the step-time histogram is normalized (ratatui-plt's `HistNorm`).
#[derive(Clone, Copy, Debug, PartialEq, Eq, Structural)]
pub enum HistNorm {
    Count,
    Density,
    Probability,
}

/// The performance tab's view settings.
#[derive(Clone, Copy, Debug, PartialEq, Eq, Structural)]
pub struct PerformanceControls {
    pub hist_norm: HistNorm,
    /// Distribution view, 0 to 2.
    pub dist_mode: u8,
}

/// The settings after a key on the performance tab: `n` cycles the
/// histogram normalization, `v` the distribution view.
pub open spec fn performance_key_step(p: PerformanceControls, code: KeyCode) -> PerformanceControls {
    if code == KeyCode::Char('n') {
        PerformanceControls {
            hist_norm: match p.hist_norm {
                HistNorm::Count => HistNorm::Density,
                HistNorm::Density => HistNorm::Probability,
                HistNorm::Probability => HistNorm::Count,
            },
            ..p
        }
    } else if code == KeyCode::Char('v') {
        PerformanceControls { dist_mode: ((p.dist_mode + 1) % 3) as u8, ..p }
    } else {
        p
    }
}

impl PerformanceControls {
    pub fn new() -> (p: PerformanceControls)
        ensures
            p == (PerformanceControls { hist_norm: HistNorm::Count, dist_mode: 0 }),
    {
        PerformanceControls { hist_norm: HistNorm::Count, dist_mode: 0 }
    }

    /// Handles a key: see `performance_key_step`. The tab asks for no action.
    pub fn handle_key_event(&mut self, key: KeyEvent) -> (a: Option<Action>)
        ensures
            *final(self) == performance_key_step(*old(self), key.code),
            a is None,
    {
        if key.code == KeyCode::Char('n') {
            self.hist_norm = match self.hist_norm {
                HistNorm::Count => HistNorm::Density,
                HistNorm::Density => HistNorm::Probability,
                HistNorm::Probability => HistNorm::Count,
            };
        } else if key.code == KeyCode::Char('v') {
            self.dist_mode = (self.dist_mode % 3 + 1) % 3;
            assert(self.dist_mode == (old(self).dist_mode + 1) % 3);
        }
        None
    }
}

// ── Rank ───────────────────────────────────────────────────────────────

/// The number of nodes of the hierarchical Tucker tree.
pub const NODE_COUNT: usize = 11;

/// The rank tab's selection: the tree node whose singular values show.
#[derive(Clone, Copy, Debug, PartialEq, Eq, Structural)]
pub struct RankControls {
    pub selected_node: usize,
}

/// The selection after a key: `n` the next node, `N` the previous, wrapping.
pub open spec fn rank_key_step(r: RankControls, code: KeyCode) -> RankControls {
    if code == KeyCode::Char('n') {
        RankControls { selected_node: ((r.selected_node + 1) % (NODE_COUNT as int)) as usize }
    } else if code == KeyCode::Char('N') {
        RankControls { selected_node: ((r.selected_node + NODE_COUNT - 1) % (NODE_COUNT as int)) as usize }
    } else {
        r
    }
}

impl RankControls {
    pub fn new() -> (r: RankControls)
        ensures
            r == (RankControls { selected_node: 0 }),
    {
        RankControls { selected_node: 0 }
    }

    /// Handles a key: see `rank_key_step`. The tab asks for no action.
    pub fn handle_key_event(&mut self, key: KeyEvent) -> (a: Option<Action>)
        requires
            old(self).selected_node < NODE_COUNT,
        ensures
            *final(self) == rank_key_step(*old(self), key.code),
            final(self).selected_node < NODE_COUNT,
            a is None,
    {
        if key.code == KeyCode::Char('n') {
            self.selected_node = (self.selected_node + 1) % NODE_COUNT;
        } else if key.code == KeyCode::Char('N') {
            self.selected_node = (self.selected_node + NODE_COUNT - 1) % NODE_COUNT;
        }
        None
    }
}

/// `n` then `N` comes back to the same node.
pub proof fn lemma_rank_cycle(r: RankControls)
    requires
        r.selected_node < NODE_COUNT,
    ensures
        rank_key_step(rank_key_step(r, KeyCode::Char('n')), KeyCode::Char('N')) == r,
{
}

} // verus!
