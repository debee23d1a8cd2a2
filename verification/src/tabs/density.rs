use vstd::prelude::*;

verus! {

/// How the density heatmap is overlaid with contours.
#[derive(Default, Clone, Copy, Debug, PartialEq, Eq, Structural)]
pub enum ContourMode {
    #[default]
    HeatmapOnly,
    HeatmapContour,
    FilledContour,
}

/// The mode after `next`.
pub open spec fn contour_next(m: ContourMode) -> ContourMode {
    match m {
        ContourMode::HeatmapOnly => ContourMode::HeatmapContour,
        ContourMode::HeatmapContour => ContourMode::FilledContour,
        ContourMode::FilledContour => ContourMode::HeatmapOnly,
    }
}

/// The tag shown in the title for a mode.
pub open spec fn contour_tag(m: ContourMode) -> Seq<char> {
    match m {
        ContourMode::HeatmapOnly => ""@,
        ContourMode::HeatmapContour => " [contour]"@,
        ContourMode::FilledContour => " [filled]"@,
    }
}

impl ContourMode {
    pub fn next(self) -> (m: ContourMode)
        ensures
            m == contour_next(self),
    {
        match self {
            ContourMode::HeatmapOnly => ContourMode::HeatmapContour,
            ContourMode::HeatmapContour => ContourMode::FilledContour,
            ContourMode::FilledContour => ContourMode::HeatmapOnly,
        }
    }

    pub fn tag(self) -> (s: &'static str)
        ensures
            s@ == contour_tag(self),
    {
        match self {
            ContourMode::HeatmapOnly => "",
            ContourMode::HeatmapContour => " [contour]",
            ContourMode::FilledContour => " [filled]",
        }
    }
}

/// Three steps of `next` return to the same mode.
pub proof fn lemma_contour_cycle(m: ContourMode)
    ensures
        contour_next(contour_next(contour_next(m))) == m,
{
}

} // verus!
