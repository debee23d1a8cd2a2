use ratatui::layout::{Constraint, Direction, Layout};
use vstd::prelude::*;

verus! {

/// A rectangle of terminal cells.
#[derive(Clone, Copy, Debug, PartialEq, Eq, Structural, Default)]
pub struct Rect {
    pub x: u16,
    pub y: u16,
    pub width: u16,
    pub height: u16,
}

/// The size of the terminal, in columns and rows.
#[derive(Clone, Copy, Debug, PartialEq, Eq, Structural, Default)]
pub struct Size {
    pub width: u16,
    pub height: u16,
}

impl Rect {
    pub fn new(x: u16, y: u16, width: u16, height: u16) -> (r: Rect)
        ensures
            r == (Rect { x, y, width, height }),
    {
        Rect { x, y, width, height }
    }
}

impl Size {
    pub fn new(width: u16, height: u16) -> (s: Size)
        ensures
            s == (Size { width, height }),
    {
        Size { width, height }
    }
}

} // verus!

verus! {

/// How much chrome the screen layout has room for.
#[derive(Debug, Clone, Copy, PartialEq, Eq, Structural)]
pub enum LayoutMode {
    /// Under 80×24: minimal chrome, no footer.
    Compact,
    /// From 80×24 up to 159×49: the standard layout.
    Standard,
    /// 160×50 and up: the wide layout (laid out as the standard one for now).
    Wide,
}

/// The regions of the screen.
#[derive(Debug, Clone, Copy)]
pub struct ScreenLayout {
    pub mode: LayoutMode,
    pub status_area: Rect,
    pub tab_bar_area: Rect,
    pub content_area: Rect,
    pub footer_area: Rect,
}

/// Minimum panel dimensions — panels below these show a placeholder.
pub const MIN_HEATMAP_WIDTH: u16 = 10;
pub const MIN_HEATMAP_HEIGHT: u16 = 5;
pub const MIN_CHART_WIDTH: u16 = 20;
pub const MIN_CHART_HEIGHT: u16 = 6;
pub const MIN_TABLE_WIDTH: u16 = 20;
pub const MIN_TABLE_HEIGHT: u16 = 3;

/// Returns true if the area is below chart minimum size.
pub fn panel_too_small(area: Rect) -> (b: bool)
    ensures
        b == (area.width < MIN_CHART_WIDTH || area.height < MIN_CHART_HEIGHT),
{
    area.width < MIN_CHART_WIDTH || area.height < MIN_CHART_HEIGHT
}

/// Returns true if the area is below heatmap minimum size.
pub fn heatmap_too_small(area: Rect) -> (b: bool)
    ensures
        b == (area.width < MIN_HEATMAP_WIDTH || area.height < MIN_HEATMAP_HEIGHT),
{
    area.width < MIN_HEATMAP_WIDTH || area.height < MIN_HEATMAP_HEIGHT
}

/// A constraint on the size of one of two parts of a split, as ratatui's
/// `Constraint` states it: an exact length, a least length, or a share in
/// percent of the area.
#[derive(Debug, Clone, Copy, PartialEq, Eq, Structural)]
pub enum Part {
    Length(u16),
    Min(u16),
    Percentage(u16),
}

/// The length that a `Length` constraint asks for (zero for another).
pub open spec fn length_of(p: Part) -> u16 {
    match p {
        Part::Length(n) => n,
        _ => 0,
    }
}

/// The two areas that ratatui's `Layout` divides `area` into, top to bottom
/// (`vertical`) or left to right, under the two constraints.
pub uninterp spec fn split_two(area: Rect, vertical: bool, a: Part, b: Part) -> (Rect, Rect);

/// Calls ratatui's `Layout::vertical([a, b]).areas(area)` (or
/// `Layout::horizontal` when `vertical` is false). What ratatui's constraint
/// solver returns is left to the name `split_two`; only the cases that its
/// tests show are stated: with `[Length(n), Min(0)]` (`[Length(25), Min(0)]`
/// in 100 cells gives 0..25 and 25..100) a top band of exactly `n` rows and
/// the rest after it, and with `[Min(0), Length(n)]` (`[Min(10),
/// Length(10)]` in 100 cells gives 0..90 and 90..100, the `Min` growing to
/// fill) a bottom band of exactly `n` rows and the rest above it, when the
/// area has room for `n` rows.
#[verifier::external_body]
fn layout_two(area: Rect, vertical: bool, a: Part, b: Part) -> (r: (Rect, Rect))
    ensures
        r == split_two(area, vertical, a, b),
        vertical && a is Length && b == Part::Min(0) && length_of(a) <= area.height && area.y + area.height
            <= u16::MAX ==> r == (
            Rect { x: area.x, y: area.y, width: area.width, height: length_of(a) },
            Rect {
                x: area.x,
                y: (area.y + length_of(a)) as u16,
                width: area.width,
                height: (area.height - length_of(a)) as u16,
            },
        ),
        vertical && a == Part::Min(0) && b is Length && length_of(b) <= area.height && area.y + area.height
            <= u16::MAX ==> r == (
            Rect { x: area.x, y: area.y, width: area.width, height: (area.height - length_of(b)) as u16 },
            Rect {
                x: area.x,
                y: (area.y + area.height - length_of(b)) as u16,
                width: area.width,
                height: length_of(b),
            },
        ),
{
    let c = |p: Part| match p {
        Part::Length(n) => Constraint::Length(n),
        Part::Min(n) => Constraint::Min(n),
        Part::Percentage(n) => Constraint::Percentage(n),
    };
    let d = if vertical { Direction::Vertical } else { Direction::Horizontal };
    let outer = ratatui::layout::Rect { x: area.x, y: area.y, width: area.width, height: area.height };
    let [p, q] = Layout::new(d, [c(a), c(b)]).areas(outer);
    (Rect { x: p.x, y: p.y, width: p.width, height: p.height }, Rect { x: q.x, y: q.y, width: q.width, height: q.height })
}

/// A top band of `n` rows and the rest below it.
fn layout_top(area: Rect, n: u16) -> (r: (Rect, Rect))
    ensures
        r == split_two(area, true, Part::Length(n), Part::Min(0)),
        n <= area.height && area.y + area.height <= u16::MAX ==> r == (
            Rect { x: area.x, y: area.y, width: area.width, height: n },
            Rect { x: area.x, y: (area.y + n) as u16, width: area.width, height: (area.height - n) as u16 },
        ),
{
    layout_two(area, true, Part::Length(n), Part::Min(0))
}

/// A bottom band of `n` rows and the rest above it.
fn layout_bottom(area: Rect, n: u16) -> (r: (Rect, Rect))
    ensures
        r == split_two(area, true, Part::Min(0), Part::Length(n)),
        n <= area.height && area.y + area.height <= u16::MAX ==> r == (
            Rect { x: area.x, y: area.y, width: area.width, height: (area.height - n) as u16 },
            Rect { x: area.x, y: (area.y + area.height - n) as u16, width: area.width, height: n },
        ),
{
    layout_two(area, true, Part::Min(0), Part::Length(n))
}

/// Two areas side by side (`vertical` false) or one above the other, under
/// the two constraints: see `split_two`.
pub fn split_area(area: Rect, vertical: bool, a: Part, b: Part) -> (r: (Rect, Rect))
    ensures
        r == split_two(area, vertical, a, b),
{
    layout_two(area, vertical, a, b)
}

/// The mode for a terminal of the given size: wide from 160 columns and 50
/// rows, standard from 80 columns and 24 rows, compact below.
pub open spec fn mode_for_size(size: Size) -> LayoutMode {
    if size.width >= 160 && size.height >= 50 {
        LayoutMode::Wide
    } else if size.width >= 80 && size.height >= 24 {
        LayoutMode::Standard
    } else {
        LayoutMode::Compact
    }
}

/// The screen layout for a terminal size: one row of status bar, one row of
/// tab bar, the content, and (unless compact) a footer of two rows.
pub open spec fn screen_layout_spec(size: Size) -> ScreenLayout {
    let full = Rect { x: 0, y: 0, width: size.width, height: size.height };
    let mode = mode_for_size(size);
    let (status_area, rest) = split_two(full, true, Part::Length(1), Part::Min(0));
    let (tab_bar_area, content_and_footer) = split_two(rest, true, Part::Length(1), Part::Min(0));
    if mode == LayoutMode::Compact {
        ScreenLayout {
            mode,
            status_area,
            tab_bar_area,
            content_area: content_and_footer,
            footer_area: Rect { x: 0, y: 0, width: 0, height: 0 },
        }
    } else {
        let (content_area, footer_area) = split_two(content_and_footer, true, Part::Min(0), Part::Length(2));
        ScreenLayout { mode, status_area, tab_bar_area, content_area, footer_area }
    }
}

pub struct ResponsiveLayout;

impl ResponsiveLayout {
    pub fn compute(size: Size) -> (l: ScreenLayout)
        ensures
            l == screen_layout_spec(size),
            l.mode == mode_for_size(size),
            size.height >= 4 ==> l.status_area == (Rect { x: 0, y: 0, width: size.width, height: 1 })
                && l.tab_bar_area == (Rect { x: 0, y: 1, width: size.width, height: 1 })
                && (l.mode == LayoutMode::Compact ==> l.content_area
                    == (Rect { x: 0, y: 2, width: size.width, height: (size.height - 2) as u16 }))
                && (l.mode != LayoutMode::Compact ==> l.content_area
                    == (Rect { x: 0, y: 2, width: size.width, height: (size.height - 4) as u16 })
                    && l.footer_area == (Rect { x: 0, y: (size.height - 2) as u16, width: size.width, height: 2 })),
    {
        let mode = if size.width >= 160 && size.height >= 50 {
            LayoutMode::Wide
        } else if size.width >= 80 && size.height >= 24 {
            LayoutMode::Standard
        } else {
            LayoutMode::Compact
        };
        let full = Rect::new(0, 0, size.width, size.height);
        match mode {
            LayoutMode::Compact => {
                // Compact: status bar, tab bar, content — no footer
                let (status_area, rest) = layout_top(full, 1);
                let (tab_bar_area, content_area) = layout_top(rest, 1);
                ScreenLayout {
                    mode,
                    status_area,
                    tab_bar_area,
                    content_area,
                    footer_area: Rect::new(0, 0, 0, 0),
                }
            },
            _ => {
                let (status_area, rest) = layout_top(full, 1);
                let (tab_bar_area, content_and_footer) = layout_top(rest, 1);
                let (content_area, footer_area) = layout_bottom(content_and_footer, 2);
                ScreenLayout { mode, status_area, tab_bar_area, content_area, footer_area }
            },
        }
    }
}

/// A larger terminal never has less chrome: with at least as many columns
/// and rows, the mode is at least as wide.
pub proof fn lemma_mode_monotonic(a: Size, b: Size)
    requires
        a.width <= b.width,
        a.height <= b.height,
    ensures
        mode_for_size(a) == LayoutMode::Wide ==> mode_for_size(b) == LayoutMode::Wide,
        mode_for_size(b) == LayoutMode::Compact ==> mode_for_size(a) == LayoutMode::Compact,
{
}

} // verus!

verus! {

/// A box of at most `max_w` × `max_h` cells centred in `area`, as the help,
/// export and quit overlays are placed.
pub open spec fn centered_spec(area: Rect, max_w: u16, max_h: u16) -> Rect {
    let w = if area.width < max_w { area.width } else { max_w };
    let h = if area.height < max_h { area.height } else { max_h };
    Rect {
        x: (area.x + (area.width - w) / 2) as u16,
        y: (area.y + (area.height - h) / 2) as u16,
        width: w,
        height: h,
    }
}

/// Places an overlay of at most `max_w` × `max_h` cells in the middle of
/// `area`.
pub fn centered_rect(area: Rect, max_w: u16, max_h: u16) -> (r: Rect)
    requires
        area.x + area.width <= u16::MAX,
        area.y + area.height <= u16::MAX,
    ensures
        r == centered_spec(area, max_w, max_h),
        area.x <= r.x,
        r.x + r.width <= area.x + area.width,
        area.y <= r.y,
        r.y + r.height <= area.y + area.height,
{
    let w = if area.width < max_w { area.width } else { max_w };
    let h = if area.height < max_h { area.height } else { max_h };
    Rect { x: area.x + (area.width - w) / 2, y: area.y + (area.height - h) / 2, width: w, height: h }
}

/// The bottom row of `area`, where the command palette is drawn.
pub fn bottom_row(area: Rect) -> (r: Rect)
    requires
        area.y + area.height <= u16::MAX,
    ensures
        r == (Rect {
            x: area.x,
            y: (area.y + if area.height == 0 { 0 } else { area.height - 1 }) as u16,
            width: area.width,
            height: 1,
        }),
{
    Rect { x: area.x, y: area.y + area.height.saturating_sub(1), width: area.width, height: 1 }
}

} // verus!
