use vstd::prelude::*;

verus! {

/// The keybinding help overlay: whether it shows and how far it is scrolled.
#[derive(Default)]
pub struct HelpOverlay {
    pub visible: bool,
    scroll: u16,
}

/// What a help overlay is: shown or not, and lines scrolled past.
pub struct HelpOverlayView {
    pub visible: bool,
    pub scroll: u16,
}

impl View for HelpOverlay {
    type V = HelpOverlayView;

    closed spec fn view(&self) -> HelpOverlayView {
        HelpOverlayView { visible: self.visible, scroll: self.scroll }
    }
}

impl HelpOverlay {
    /// A hidden overlay scrolled to the top.
    pub fn new() -> (h: HelpOverlay)
        ensures
            h@ == (HelpOverlayView { visible: false, scroll: 0 }),
    {
        HelpOverlay { visible: false, scroll: 0 }
    }

    /// Whether the overlay shows.
    pub fn is_visible(&self) -> (v: bool)
        ensures
            v == self@.visible,
    {
        self.visible
    }

    /// The number of lines scrolled past.
    pub fn scroll(&self) -> (s: u16)
        ensures
            s == self@.scroll,
    {
        self.scroll
    }

    /// Shows or hides the overlay; either way it returns to the top.
    pub fn toggle(&mut self)
        ensures
            final(self)@ == toggled(old(self)@),
    {
        self.visible = !self.visible;
        self.scroll = 0;
    }

    /// Scrolls one line down, stopping at the largest `u16`.
    pub fn scroll_down(&mut self)
        ensures
            final(self)@ == scrolled_down(old(self)@),
    {
        self.scroll = self.scroll.saturating_add(1);
    }

    /// Scrolls one line up, stopping at the top.
    pub fn scroll_up(&mut self)
        ensures
            final(self)@ == scrolled_up(old(self)@),
    {
        self.scroll = self.scroll.saturating_sub(1);
    }
}

/// The overlay after `toggle`: shown if it was hidden and back at the top.
pub open spec fn toggled(v: HelpOverlayView) -> HelpOverlayView {
    HelpOverlayView { visible: !v.visible, scroll: 0 }
}

/// The overlay after `scroll_down`: one line further, saturating.
pub open spec fn scrolled_down(v: HelpOverlayView) -> HelpOverlayView {
    HelpOverlayView {
        visible: v.visible,
        scroll: if v.scroll == u16::MAX { u16::MAX } else { (v.scroll + 1) as u16 },
    }
}

/// The overlay after `scroll_up`: one line back, stopping at the top.
pub open spec fn scrolled_up(v: HelpOverlayView) -> HelpOverlayView {
    HelpOverlayView {
        visible: v.visible,
        scroll: if v.scroll == 0 { 0 } else { (v.scroll - 1) as u16 },
    }
}

/// Scrolling down then up returns to the same view, unless the overlay was
/// already at the last representable line.
pub proof fn lemma_scroll_down_then_up(v: HelpOverlayView)
    requires
        v.scroll < u16::MAX,
    ensures
        scrolled_up(scrolled_down(v)) == v,
{
}

/// Toggling twice shows the overlay as it was, scrolled to the top.
pub proof fn lemma_toggle_twice(v: HelpOverlayView)
    ensures
        toggled(toggled(v)) == (HelpOverlayView { visible: v.visible, scroll: 0 }),
{
}

} // verus!
