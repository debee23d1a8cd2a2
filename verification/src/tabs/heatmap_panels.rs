//! How the density and phase-space tabs lay out and title their heatmaps:
//! the title that names the projection or the plotted pair with the active
//! scale and overlays, which strips beside the heatmap fit, and which of the
//! six phase-space dimensions are left to slice through.

use vstd::prelude::*;

use crate::layout::{split_area, split_two, Part, Rect};
use crate::plt_bridge::{norm_tag, NormMode};
use crate::tabs::controls::{DensityControls, PhaseSpaceControls};
use crate::tabs::density::{contour_tag, ContourMode};

verus! {

/// The name of a density projection, by its axis (a larger axis counts as
/// the last).
pub open spec fn projection_name(axis: u8) -> Seq<char> {
    if axis == 0 {
        "ρ(y,z)  [x-projection]"@
    } else if axis == 1 {
        "ρ(x,z)  [y-projection]"@
    } else {
        "ρ(x,y)  [z-projection]"@
    }
}

/// A tag that is shown when its overlay is on.
pub open spec fn tag_if(on: bool, tag: Seq<char>) -> Seq<char> {
    if on {
        tag
    } else {
        ""@
    }
}

/// The density heatmap's title: the projection, the scale, the contour
/// mode, then the acceleration, streamline and inset overlays that are on
/// (the inset only shows while zoomed in).
pub open spec fn density_title_text(d: DensityControls, zoomed: bool) -> Seq<char> {
    " "@ + projection_name(d.axis) + norm_tag(d.norm_mode) + contour_tag(d.contour_mode) + tag_if(
        d.show_acceleration,
        " [accel]"@,
    ) + tag_if(d.show_streamlines, " [stream]"@) + tag_if(d.show_inset && zoomed, " [inset]"@) + " "@
}

fn projection_label(axis: u8) -> (s: &'static str)
    ensures
        s@ == projection_name(axis),
{
    if axis == 0 {
        "ρ(y,z)  [x-projection]"
    } else if axis == 1 {
        "ρ(x,z)  [y-projection]"
    } else {
        "ρ(x,y)  [z-projection]"
    }
}

fn tag_when(on: bool, tag: &'static str) -> (s: &'static str)
    ensures
        s@ == tag_if(on, tag@),
{
    if on {
        tag
    } else {
        ""
    }
}

/// The density heatmap's title: see `density_title_text`.
pub fn density_title(d: &DensityControls, zoomed: bool) -> (s: String)
    ensures
        s@ == density_title_text(*d, zoomed),
{
    String::from_str(" ")
        .concat(projection_label(d.axis))
        .concat(d.norm_mode.tag())
        .concat(d.contour_mode.tag())
        .concat(tag_when(d.show_acceleration, " [accel]"))
        .concat(tag_when(d.show_streamlines, " [stream]"))
        .concat(tag_when(d.show_inset && zoomed, " [inset]"))
        .concat(" ")
}

/// The label of a spatial dimension (a larger one counts as the last).
pub open spec fn space_label(d: u8) -> Seq<char> {
    if d == 0 {
        "x"@
    } else if d == 1 {
        "y"@
    } else {
        "z"@
    }
}

/// The label of a velocity dimension (a larger one counts as the last).
pub open spec fn velocity_label(d: u8) -> Seq<char> {
    if d == 0 {
        "vx"@
    } else if d == 1 {
        "vy"@
    } else {
        "vz"@
    }
}

/// The phase-space heatmap's title: the plotted pair, the scale, the slice
/// positions as written out for the title, and the inset tag while zoomed in.
pub open spec fn phase_title_text(p: PhaseSpaceControls, slices: Seq<char>, zoomed: bool) -> Seq<char> {
    " f("@ + space_label(p.dim_x) + ", "@ + velocity_label(p.dim_v) + ")"@ + norm_tag(p.norm_mode) + slices + tag_if(
        p.show_inset && zoomed,
        " [inset]"@,
    )
}

fn space_name(d: u8) -> (s: &'static str)
    ensures
        s@ == space_label(d),
{
    if d == 0 {
        "x"
    } else if d == 1 {
        "y"
    } else {
        "z"
    }
}

fn velocity_name(d: u8) -> (s: &'static str)
    ensures
        s@ == velocity_label(d),
{
    if d == 0 {
        "vx"
    } else if d == 1 {
        "vy"
    } else {
        "vz"
    }
}

/// The phase-space heatmap's title: see `phase_title_text`.
pub fn phase_title(p: &PhaseSpaceControls, slices: &str, zoomed: bool) -> (s: String)
    ensures
        s@ == phase_title_text(*p, slices@, zoomed),
{
    String::from_str(" f(")
        .concat(space_name(p.dim_x))
        .concat(", ")
        .concat(velocity_name(p.dim_v))
        .concat(")")
        .concat(p.norm_mode.tag())
        .concat(slices)
        .concat(tag_when(p.show_inset && zoomed, " [inset]"))
}

/// Whether an info strip three lines tall goes under a heatmap: when it is
/// asked for and the area is more than four lines tall.
pub fn info_strip_fits(show_info: bool, height: u16) -> (b: bool)
    ensures
        b == (show_info && height > 4),
{
    show_info && height > 4
}

/// Whether the density marginal strips (one on top, one on the right) go
/// beside the heatmap: when asked for and the area is at least 40 columns
/// wide and 12 lines tall.
pub fn density_marginals_fit(show: bool, width: u16, height: u16) -> (b: bool)
    ensures
        b == (show && height >= 12 && width >= 40),
{
    show && height >= 12 && width >= 40
}

/// The strips around the phase-space heatmap.
#[derive(Debug, Clone, Copy, PartialEq, Eq, Structural)]
pub enum Marginals {
    /// The spatial marginal on top and the velocity marginal on the right.
    Joint,
    /// The velocity marginal on the right only.
    Side,
    /// No strip.
    Neither,
}

/// The strips around the phase-space heatmap when the velocity distribution
/// is asked for: both when the area is at least 50 columns wide and 15 lines
/// tall, the velocity one alone when it is only wide enough.
pub open spec fn phase_marginals_for(show: bool, width: u16, height: u16) -> Marginals {
    if show && width >= 50 && height >= 15 {
        Marginals::Joint
    } else if show && width >= 50 {
        Marginals::Side
    } else {
        Marginals::Neither
    }
}

/// The strips around the phase-space heatmap: see `phase_marginals_for`.
pub fn phase_marginals(show: bool, width: u16, height: u16) -> (m: Marginals)
    ensures
        m == phase_marginals_for(show, width, height),
{
    if show && width >= 50 && height >= 15 {
        Marginals::Joint
    } else if show && width >= 50 {
        Marginals::Side
    } else {
        Marginals::Neither
    }
}

/// The dimensions of phase space, numbered x₁ x₂ x₃ v₁ v₂ v₃ from zero, from
/// `d` on, without the two that are plotted.
pub open spec fn hidden_from(dim_x: int, dim_v: int, d: int) -> Seq<u8>
    decreases 6 - d,
{
    if d >= 6 || d < 0 {
        Seq::empty()
    } else if d == dim_x || d == 3 + dim_v {
        hidden_from(dim_x, dim_v, d + 1)
    } else {
        seq![d as u8] + hidden_from(dim_x, dim_v, d + 1)
    }
}

/// The four dimensions of phase space that the plotted pair leaves hidden,
/// in order: the slice offsets apply to them one by one.
pub fn hidden_dims(dim_x: u8, dim_v: u8) -> (v: Vec<u8>)
    requires
        dim_x < 3,
        dim_v < 3,
    ensures
        v@ == hidden_from(dim_x as int, dim_v as int, 0),
        v@.len() == 4,
{
    let mut v: Vec<u8> = Vec::new();
    let mut d: u8 = 0;
    while d < 6
        invariant
            d <= 6,
            dim_x < 3,
            dim_v < 3,
            v@ + hidden_from(dim_x as int, dim_v as int, d as int) == hidden_from(dim_x as int, dim_v as int, 0),
            v@.len() == d - (if dim_x < d { 1int } else { 0int }) - (if 3 + dim_v < d { 1int } else { 0int }),
        decreases 6 - d,
    {
        let ghost rest = hidden_from(dim_x as int, dim_v as int, d as int + 1);
        if d != dim_x && d != 3 + dim_v {
            assert(v@.push(d) + rest =~= v@ + (seq![d] + rest));
            v.push(d);
        }
        d = d + 1;
    }
    v
}

proof fn lemma_hidden_from(dim_x: int, dim_v: int, d: int, e: int)
    requires
        0 <= d,
        0 <= e < 256,
    ensures
        hidden_from(dim_x, dim_v, d).contains(e as u8) <==> (d <= e < 6 && e != dim_x && e != 3 + dim_v),
    decreases 6 - d,
{
    if d < 6 {
        lemma_hidden_from(dim_x, dim_v, d + 1, e);
        let rest = hidden_from(dim_x, dim_v, d + 1);
        if !(d == dim_x || d == 3 + dim_v) {
            let s = seq![d as u8] + rest;
            assert(s[0] == d as u8);
            if rest.contains(e as u8) {
                let k = choose|k: int| 0 <= k < rest.len() && rest[k] == e as u8;
                assert(s[k + 1] == e as u8);
            }
            if s.contains(e as u8) {
                let k = choose|k: int| 0 <= k < s.len() && s[k] == e as u8;
                if k > 0 {
                    assert(rest[k - 1] == e as u8);
                }
            }
        }
    }
}

/// The hidden dimensions are exactly the four that are not plotted: a
/// dimension of phase space is hidden if and only if it is neither the
/// plotted space dimension nor the plotted velocity one.
pub proof fn lemma_hidden_are_the_rest(dim_x: u8, dim_v: u8, e: u8)
    requires
        dim_x < 3,
        dim_v < 3,
    ensures
        hidden_from(dim_x as int, dim_v as int, 0).contains(e) <==> (e < 6 && e != dim_x && e != 3 + dim_v),
{
    lemma_hidden_from(dim_x as int, dim_v as int, 0, e as int);
}

/// The areas of a heatmap tab: the heatmap, the strips beside it that fit
/// (for the density tab, the marginal on top and the one on the right; for
/// the phase-space tab, the spatial marginal on top and the velocity one on
/// the right), and the info strip under it when it fits.
#[derive(Debug, Clone, Copy, PartialEq, Eq)]
pub struct HeatmapAreas {
    pub heatmap: Rect,
    pub top_strip: Option<Rect>,
    pub right_strip: Option<Rect>,
    pub info: Option<Rect>,
}

/// The area left above the info strip, and the info strip when it fits.
pub open spec fn info_split(area: Rect, show_info: bool) -> (Rect, Option<Rect>) {
    if show_info && area.height > 4 {
        let (main, info) = split_two(area, true, Part::Min(0), Part::Length(3));
        (main, Some(info))
    } else {
        (area, None)
    }
}

/// The density tab's areas: below them the info strip when it fits; the
/// marginal strips (five rows on top, twenty columns on the right) when they
/// fit.
pub open spec fn density_areas_spec(area: Rect, d: DensityControls) -> HeatmapAreas {
    let (main, info) = info_split(area, d.show_info);
    if d.show_marginals && main.height >= 12 && main.width >= 40 {
        let (top, center) = split_two(main, true, Part::Length(5), Part::Min(5));
        let (heatmap, right) = split_two(center, false, Part::Min(10), Part::Length(20));
        HeatmapAreas { heatmap, top_strip: Some(top), right_strip: Some(right), info }
    } else {
        HeatmapAreas { heatmap: main, top_strip: None, right_strip: None, info }
    }
}

/// The phase-space tab's areas: the info strip when it fits; the velocity
/// marginal on the right (30 percent of the width) and, with room for both,
/// the spatial marginal on top (six rows), as `phase_marginals_for` decides.
pub open spec fn phase_space_areas_spec(area: Rect, p: PhaseSpaceControls) -> HeatmapAreas {
    let (main, info) = info_split(area, p.show_info);
    match phase_marginals_for(p.show_vel_histogram, main.width, main.height) {
        Marginals::Joint => {
            let (top, center) = split_two(main, true, Part::Length(6), Part::Min(8));
            let (heatmap, side) = split_two(center, false, Part::Percentage(70), Part::Percentage(30));
            HeatmapAreas { heatmap, top_strip: Some(top), right_strip: Some(side), info }
        },
        Marginals::Side => {
            let (heatmap, side) = split_two(main, false, Part::Percentage(70), Part::Percentage(30));
            HeatmapAreas { heatmap, top_strip: None, right_strip: Some(side), info }
        },
        Marginals::Neither => HeatmapAreas { heatmap: main, top_strip: None, right_strip: None, info },
    }
}

fn split_info(area: Rect, show_info: bool) -> (r: (Rect, Option<Rect>))
    ensures
        r == info_split(area, show_info),
{
    if info_strip_fits(show_info, area.height) {
        let (main, info) = split_area(area, true, Part::Min(0), Part::Length(3));
        (main, Some(info))
    } else {
        (area, None)
    }
}

/// The density tab's areas: see `density_areas_spec`.
pub fn density_areas(area: Rect, d: &DensityControls) -> (a: HeatmapAreas)
    ensures
        a == density_areas_spec(area, *d),
{
    let (main, info) = split_info(area, d.show_info);
    if density_marginals_fit(d.show_marginals, main.width, main.height) {
        let (top, center) = split_area(main, true, Part::Length(5), Part::Min(5));
        let (heatmap, right) = split_area(center, false, Part::Min(10), Part::Length(20));
        HeatmapAreas { heatmap, top_strip: Some(top), right_strip: Some(right), info }
    } else {
        HeatmapAreas { heatmap: main, top_strip: None, right_strip: None, info }
    }
}

/// The phase-space tab's areas: see `phase_space_areas_spec`.
pub fn phase_space_areas(area: Rect, p: &PhaseSpaceControls) -> (a: HeatmapAreas)
    ensures
        a == phase_space_areas_spec(area, *p),
{
    let (main, info) = split_info(area, p.show_info);
    match phase_marginals(p.show_vel_histogram, main.width, main.height) {
        Marginals::Joint => {
            let (top, center) = split_area(main, true, Part::Length(6), Part::Min(8));
            let (heatmap, side) = split_area(center, false, Part::Percentage(70), Part::Percentage(30));
            HeatmapAreas { heatmap, top_strip: Some(top), right_strip: Some(side), info }
        },
        Marginals::Side => {
            let (heatmap, side) = split_area(main, false, Part::Percentage(70), Part::Percentage(30));
            HeatmapAreas { heatmap, top_strip: None, right_strip: Some(side), info }
        },
        Marginals::Neither => HeatmapAreas { heatmap: main, top_strip: None, right_strip: None, info },
    }
}

} // verus!
