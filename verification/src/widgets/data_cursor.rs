use vstd::prelude::*;

use crate::layout::Rect;

verus! {

/// Floating data-cursor tooltip: where it stands and what it says.
#[derive(Default)]
pub struct DataCursor {
    pub visible: bool,
    pub x: u16,
    pub y: u16,
    pub label: String,
}

/// The tooltip's width: four cells more than the label's length in bytes
/// (taken as a `u16`), at most 40.
pub open spec fn tooltip_width(label_bytes: usize) -> u16 {
    let t = label_bytes as u16;
    if t >= 36 { 40 } else { (t + 4) as u16 }
}

impl DataCursor {
    /// Where the tooltip is drawn on a frame `frame_width` cells wide: at the
    /// cursor, moved left so that it fits, three rows tall.
    pub fn tooltip_area(&self, frame_width: u16) -> (r: Rect)
        ensures
            r.width == tooltip_width(vstd::utf8::encode_utf8(self.label@).len() as usize),
            r.x == (if self.x < (if frame_width >= r.width { (frame_width - r.width) as u16 } else { 0 }) {
                self.x
            } else {
                if frame_width >= r.width { (frame_width - r.width) as u16 } else { 0 }
            }),
            r.y == self.y,
            r.height == 3,
    {
        let text = self.label.as_str();
        let bytes = text.len();
        assert(text@ == self.label@);
        let t = #[verifier::truncate] (bytes as u16);
        let w: u16 = if t >= 36 { 40 } else { t + 4 };
        let limit = frame_width.saturating_sub(w);
        let x = if self.x < limit { self.x } else { limit };
        Rect { x, y: self.y, width: w, height: 3 }
    }

    /// A hidden cursor at the origin with an empty label.
    pub fn new() -> (c: DataCursor)
        ensures
            !c.visible,
            c.x == 0,
            c.y == 0,
            c.label@ == Seq::<char>::empty(),
    {
        DataCursor { visible: false, x: 0, y: 0, label: String::new() }
    }

    /// Shows the tooltip at a position with a label.
    pub fn show(&mut self, x: u16, y: u16, label: String)
        ensures
            final(self).visible,
            final(self).x == x,
            final(self).y == y,
            final(self).label == label,
    {
        self.visible = true;
        self.x = x;
        self.y = y;
        self.label = label;
    }

    /// Hides the tooltip; its position and label stay.
    pub fn hide_tooltip(&mut self)
        ensures
            !final(self).visible,
            final(self).x == old(self).x,
            final(self).y == old(self).y,
            final(self).label == old(self).label,
    {
        self.visible = false;
    }
}

} // verus!
