//! The Settings tab: theme, colormap, cell aspect ratio and the minimum
//! terminal size, each adjusted with Left and Right.

use vstd::prelude::*;

use crate::action::Action;
use crate::keys::{KeyCode, KeyEvent};
use crate::plt_bridge::{lemma_mod_step, colormap_names, colormap_names_spec, find_name, position_of, theme_names, theme_names_spec};
use crate::text::{decimal, decimal_string, digit, digit_char, string_views};

verus! {

#[derive(Debug, Clone, Copy, PartialEq, Eq, Structural)]
pub enum SettingsSection {
    Theme,
    Colormap,
    CellAspect,
    MinTermCols,
    MinTermRows,
}

/// The number of settings.
pub const SECTION_COUNT: usize = 5;

/// The settings in the order shown.
pub open spec fn sections() -> Seq<SettingsSection> {
    seq![
        SettingsSection::Theme,
        SettingsSection::Colormap,
        SettingsSection::CellAspect,
        SettingsSection::MinTermCols,
        SettingsSection::MinTermRows,
    ]
}

fn section_at(i: usize) -> (s: SettingsSection)
    requires
        i < SECTION_COUNT,
    ensures
        s == sections()[i as int],
{
    match i {
        0 => SettingsSection::Theme,
        1 => SettingsSection::Colormap,
        2 => SettingsSection::CellAspect,
        3 => SettingsSection::MinTermCols,
        _ => SettingsSection::MinTermRows,
    }
}

/// The Settings tab's state. The cell aspect ratio (a cell's width over its
/// height) is kept in hundredths: 50 stands for 0.5, and it moves in steps
/// of 5 between 20 and 100.
pub struct SettingsTab {
    focused: usize,
    theme_idx: usize,
    colormap_idx: usize,
    cell_aspect_pct: u32,
    min_cols: u16,
    min_rows: u16,
}

/// What the Settings tab holds.
pub struct SettingsView {
    pub focused: nat,
    pub theme_idx: nat,
    pub colormap_idx: nat,
    pub cell_aspect_pct: u32,
    pub min_cols: u16,
    pub min_rows: u16,
}

impl View for SettingsTab {
    type V = SettingsView;

    closed spec fn view(&self) -> SettingsView {
        SettingsView {
            focused: self.focused as nat,
            theme_idx: self.theme_idx as nat,
            colormap_idx: self.colormap_idx as nat,
            cell_aspect_pct: self.cell_aspect_pct,
            min_cols: self.min_cols,
            min_rows: self.min_rows,
        }
    }
}

impl SettingsView {
    /// The focus is on a setting, the indices name a theme and a colormap,
    /// and the values are within their bounds.
    pub open spec fn wf(self) -> bool {
        &&& self.focused < SECTION_COUNT
        &&& self.theme_idx < theme_names_spec().len()
        &&& self.colormap_idx < colormap_names_spec().len()
        &&& 20 <= self.cell_aspect_pct <= 100
        &&& 40 <= self.min_cols <= 300
        &&& 12 <= self.min_rows <= 100
    }
}

/// The tab after a key and the action it answers with. Down/`j` and Up/`k`
/// move the focus around the list; Left/`h` and Right/`l` change the focused
/// setting: the theme and colormap cycle (and ask the application to follow),
/// the cell aspect moves by 0.05 within [0.2, 1.0], the minimum columns by
/// 10 within [40, 300], the minimum rows by 2 within [12, 100].
pub open spec fn settings_key_step(v: SettingsView, code: KeyCode) -> (SettingsView, Option<Action>) {
    let nt = theme_names_spec().len();
    let nc = colormap_names_spec().len();
    let left = code == KeyCode::Left || code == KeyCode::Char('h');
    let right = code == KeyCode::Right || code == KeyCode::Char('l');
    if code == KeyCode::Down || code == KeyCode::Char('j') {
        (SettingsView { focused: ((v.focused + 1) % SECTION_COUNT as nat) as nat, ..v }, None)
    } else if code == KeyCode::Up || code == KeyCode::Char('k') {
        (SettingsView { focused: ((v.focused + SECTION_COUNT - 1) % (SECTION_COUNT as int)) as nat, ..v }, None)
    } else if left || right {
        match sections()[v.focused as int] {
            SettingsSection::Theme => (
                SettingsView {
                    theme_idx: if left { ((v.theme_idx + nt - 1) % nt as int) as nat } else { ((v.theme_idx + 1) % nt) as nat },
                    ..v
                },
                Some(Action::ThemeCycle),
            ),
            SettingsSection::Colormap => (
                SettingsView {
                    colormap_idx: if left { ((v.colormap_idx + nc - 1) % nc as int) as nat } else { ((v.colormap_idx + 1) % nc) as nat },
                    ..v
                },
                Some(Action::VizCycleColormap),
            ),
            SettingsSection::CellAspect => (
                SettingsView {
                    cell_aspect_pct: if left {
                        if v.cell_aspect_pct >= 25 { (v.cell_aspect_pct - 5) as u32 } else { 20 }
                    } else {
                        if v.cell_aspect_pct <= 95 { (v.cell_aspect_pct + 5) as u32 } else { 100 }
                    },
                    ..v
                },
                None,
            ),
            SettingsSection::MinTermCols => (
                SettingsView {
                    min_cols: if left {
                        if v.min_cols >= 50 { (v.min_cols - 10) as u16 } else { 40 }
                    } else {
                        if v.min_cols <= 290 { (v.min_cols + 10) as u16 } else { 300 }
                    },
                    ..v
                },
                None,
            ),
            SettingsSection::MinTermRows => (
                SettingsView {
                    min_rows: if left {
                        if v.min_rows >= 14 { (v.min_rows - 2) as u16 } else { 12 }
                    } else {
                        if v.min_rows <= 98 { (v.min_rows + 2) as u16 } else { 100 }
                    },
                    ..v
                },
                None,
            ),
        }
    } else {
        (v, None)
    }
}

/// The label of a setting in the list.
pub open spec fn section_label(s: SettingsSection) -> Seq<char> {
    match s {
        SettingsSection::Theme => "Theme"@,
        SettingsSection::Colormap => "Colormap"@,
        SettingsSection::CellAspect => "Cell aspect ratio"@,
        SettingsSection::MinTermCols => "Min terminal cols"@,
        SettingsSection::MinTermRows => "Min terminal rows"@,
    }
}

/// A number of hundredths written with two decimals, as 0.50 for 50.
pub open spec fn hundredths(p: nat) -> Seq<char> {
    decimal(p / 100).push('.').push(digit((p % 100) / 10)).push(digit(p % 10))
}

/// A value between the arrows that change it.
pub open spec fn arrows(t: Seq<char>) -> Seq<char> {
    "◄ "@ + t + " ►"@
}

/// The value shown for a setting: a theme or colormap by name with its place
/// in the list, the cell aspect ratio with two decimals, the minimum size as
/// a whole number.
pub open spec fn section_value(v: SettingsView, s: SettingsSection) -> Seq<char> {
    match s {
        SettingsSection::Theme => arrows(theme_names_spec()[v.theme_idx as int]) + "  ("@ + decimal(v.theme_idx + 1)
            + "/"@ + decimal(theme_names_spec().len()) + ")"@,
        SettingsSection::Colormap => arrows(colormap_names_spec()[v.colormap_idx as int]) + "  ("@ + decimal(
            v.colormap_idx + 1,
        ) + "/"@ + decimal(colormap_names_spec().len()) + ")"@,
        SettingsSection::CellAspect => arrows(hundredths(v.cell_aspect_pct as nat)),
        SettingsSection::MinTermCols => arrows(decimal(v.min_cols as nat)),
        SettingsSection::MinTermRows => arrows(decimal(v.min_rows as nat)),
    }
}

/// The rows of the settings list, in order: whether the row has the focus,
/// its label and its value.
pub open spec fn settings_rows(v: SettingsView) -> Seq<(bool, Seq<char>, Seq<char>)> {
    Seq::new(
        SECTION_COUNT as nat,
        |i: int| (i == v.focused, section_label(sections()[i]), section_value(v, sections()[i])),
    )
}

/// The rows of the settings list with their texts as character sequences.
pub open spec fn rows_view(r: Seq<(bool, String, String)>) -> Seq<(bool, Seq<char>, Seq<char>)> {
    r.map_values(|e: (bool, String, String)| (e.0, e.1@, e.2@))
}

fn section_label_text(s: SettingsSection) -> (t: &'static str)
    ensures
        t@ == section_label(s),
{
    match s {
        SettingsSection::Theme => "Theme",
        SettingsSection::Colormap => "Colormap",
        SettingsSection::CellAspect => "Cell aspect ratio",
        SettingsSection::MinTermCols => "Min terminal cols",
        SettingsSection::MinTermRows => "Min terminal rows",
    }
}

fn hundredths_text(p: u32) -> (t: String)
    ensures
        t@ == hundredths(p as nat),
{
    let mut t = decimal_string((p / 100) as u128);
    t.push('.');
    t.push(digit_char(((p % 100) / 10) as u128));
    t.push(digit_char((p % 10) as u128));
    t
}

fn arrows_text(t: &str) -> (r: String)
    ensures
        r@ == arrows(t@),
{
    String::from_str("◄ ").concat(t).concat(" ►")
}

fn place_text(name: &str, idx: usize, total: usize) -> (r: String)
    ensures
        r@ == arrows(name@) + "  ("@ + decimal(idx as nat + 1) + "/"@ + decimal(total as nat) + ")"@,
{
    arrows_text(name)
        .concat("  (")
        .concat(decimal_string(idx as u128 + 1).as_str())
        .concat("/")
        .concat(decimal_string(total as u128).as_str())
        .concat(")")
}


/// The Settings tab at start: the first setting focused, the first theme and
/// colormap, a cell aspect of 0.5 and a minimum terminal of 80×24.
pub open spec fn initial_settings() -> SettingsView {
    SettingsView { focused: 0, theme_idx: 0, colormap_idx: 0, cell_aspect_pct: 50, min_cols: 80, min_rows: 24 }
}

impl SettingsTab {
    /// The first setting focused, the first theme and colormap, a cell aspect
    /// of 0.5 and a minimum terminal of 80×24.
    pub fn new() -> (t: SettingsTab)
        ensures
            t@ == initial_settings(),
            t@.wf(),
    {
        SettingsTab { focused: 0, theme_idx: 0, colormap_idx: 0, cell_aspect_pct: 50, min_cols: 80, min_rows: 24 }
    }

    /// The focused setting.
    pub fn focused_section(&self) -> (s: SettingsSection)
        requires
            self@.wf(),
        ensures
            s == sections()[self@.focused as int],
    {
        section_at(self.focused)
    }

    /// The cell aspect ratio in hundredths.
    pub fn cell_aspect_pct(&self) -> (p: u32)
        ensures
            p == self@.cell_aspect_pct,
    {
        self.cell_aspect_pct
    }

    /// The minimum terminal size, in columns and rows.
    pub fn min_size(&self) -> (r: (u16, u16))
        ensures
            r == (self@.min_cols, self@.min_rows),
    {
        (self.min_cols, self.min_rows)
    }

    /// Sync local state from app-level values so the tab always shows the
    /// real current settings; an unknown name selects the first entry.
    pub fn sync(&mut self, theme_name: &str, colormap_name: &str)
        requires
            old(self)@.wf(),
        ensures
            final(self)@.wf(),
            final(self)@ == (SettingsView {
                theme_idx: match position_of(theme_names_spec(), theme_name@) { Some(i) => i, None => 0 },
                colormap_idx: match position_of(colormap_names_spec(), colormap_name@) { Some(i) => i, None => 0 },
                ..old(self)@
            }),
    {
        let themes = theme_names();
        assert(string_views(themes@).len() == themes@.len());
        self.theme_idx = match find_name(&themes, theme_name) {
            Some(i) => i,
            None => 0,
        };
        let cmaps = colormap_names();
        assert(string_views(cmaps@).len() == cmaps@.len());
        self.colormap_idx = match find_name(&cmaps, colormap_name) {
            Some(i) => i,
            None => 0,
        };
    }

    /// The value shown for a setting: see `section_value`.
    fn value_text(&self, sec: SettingsSection) -> (t: String)
        requires
            self@.wf(),
        ensures
            t@ == section_value(self@, sec),
    {
        match sec {
            SettingsSection::Theme => {
                let total = theme_names().len();
                place_text(self.current_theme_name().as_str(), self.theme_idx, total)
            },
            SettingsSection::Colormap => {
                let total = colormap_names().len();
                place_text(self.current_colormap_name().as_str(), self.colormap_idx, total)
            },
            SettingsSection::CellAspect => arrows_text(hundredths_text(self.cell_aspect_pct).as_str()),
            SettingsSection::MinTermCols => arrows_text(decimal_string(self.min_cols as u128).as_str()),
            SettingsSection::MinTermRows => arrows_text(decimal_string(self.min_rows as u128).as_str()),
        }
    }

    /// The rows of the settings list: see `settings_rows`.
    pub fn rows(&self) -> (r: Vec<(bool, String, String)>)
        requires
            self@.wf(),
        ensures
            rows_view(r@) == settings_rows(self@),
    {
        let mut r: Vec<(bool, String, String)> = Vec::new();
        let mut i: usize = 0;
        while i < SECTION_COUNT
            invariant
                self@.wf(),
                i <= SECTION_COUNT,
                rows_view(r@) == settings_rows(self@).take(i as int),
            decreases SECTION_COUNT - i,
        {
            let sec = section_at(i);
            let row = (i == self.focused, String::from_str(section_label_text(sec)), self.value_text(sec));
            let ghost before = rows_view(r@);
            r.push(row);
            assert(rows_view(r@) =~= before.push((row.0, row.1@, row.2@)));
            assert(settings_rows(self@).take(i as int + 1) =~= settings_rows(self@).take(i as int).push(
                settings_rows(self@)[i as int],
            ));
            i = i + 1;
        }
        assert(settings_rows(self@).take(SECTION_COUNT as int) =~= settings_rows(self@));
        r
    }

    /// The name of the theme shown.
    pub fn current_theme_name(&self) -> (s: String)
        requires
            self@.wf(),
        ensures
            s@ == theme_names_spec()[self@.theme_idx as int],
    {
        let themes = theme_names();
        assert(string_views(themes@).len() == themes@.len());
        assert(string_views(themes@)[self.theme_idx as int] == themes@[self.theme_idx as int]@);
        themes[self.theme_idx].clone()
    }

    /// The name of the colormap shown.
    pub fn current_colormap_name(&self) -> (s: String)
        requires
            self@.wf(),
        ensures
            s@ == colormap_names_spec()[self@.colormap_idx as int],
    {
        let cmaps = colormap_names();
        assert(string_views(cmaps@).len() == cmaps@.len());
        assert(string_views(cmaps@)[self.colormap_idx as int] == cmaps@[self.colormap_idx as int]@);
        cmaps[self.colormap_idx].clone()
    }

    /// Handles a key: see `settings_key_step`.
    pub fn handle_key_event(&mut self, key: KeyEvent) -> (a: Option<Action>)
        requires
            old(self)@.wf(),
        ensures
            final(self)@.wf(),
            (final(self)@, a) == settings_key_step(old(self)@, key.code),
    {
        let code = key.code;
        let section = section_at(self.focused);
        let left = code == KeyCode::Left || code == KeyCode::Char('h');
        let right = code == KeyCode::Right || code == KeyCode::Char('l');
        if code == KeyCode::Down || code == KeyCode::Char('j') {
            self.focused = (self.focused + 1) % SECTION_COUNT;
            None
        } else if code == KeyCode::Up || code == KeyCode::Char('k') {
            self.focused = (self.focused + SECTION_COUNT - 1) % SECTION_COUNT;
            None
        } else if left || right {
            match section {
                SettingsSection::Theme => {
                    let len = theme_names().len();
                    assert(len == theme_names_spec().len());
                    self.theme_idx = if left { (self.theme_idx + len - 1) % len } else { (self.theme_idx + 1) % len };
                    Some(Action::ThemeCycle)
                },
                SettingsSection::Colormap => {
                    let len = colormap_names().len();
                    assert(len == colormap_names_spec().len());
                    self.colormap_idx = if left { (self.colormap_idx + len - 1) % len } else { (self.colormap_idx + 1) % len };
                    Some(Action::VizCycleColormap)
                },
                SettingsSection::CellAspect => {
                    self.cell_aspect_pct = if left {
                        if self.cell_aspect_pct >= 25 { self.cell_aspect_pct - 5 } else { 20 }
                    } else {
                        if self.cell_aspect_pct <= 95 { self.cell_aspect_pct + 5 } else { 100 }
                    };
                    None
                },
                SettingsSection::MinTermCols => {
                    self.min_cols = if left {
                        if self.min_cols >= 50 { self.min_cols - 10 } else { 40 }
                    } else {
                        if self.min_cols <= 290 { self.min_cols + 10 } else { 300 }
                    };
                    None
                },
                SettingsSection::MinTermRows => {
                    self.min_rows = if left {
                        if self.min_rows >= 14 { self.min_rows - 2 } else { 12 }
                    } else {
                        if self.min_rows <= 98 { self.min_rows + 2 } else { 100 }
                    };
                    None
                },
            }
        } else {
            None
        }
    }
}

impl Default for SettingsTab {
    fn default() -> (t: SettingsTab)
        ensures
            t@ == initial_settings(),
            t@.wf(),
    {
        SettingsTab::new()
    }
}

/// Every key keeps the settings within their bounds.
pub proof fn lemma_settings_key_keeps_wf(v: SettingsView, code: KeyCode)
    requires
        v.wf(),
    ensures
        settings_key_step(v, code).0.wf(),
{
}

/// On the theme or colormap setting, Left then Right comes back to the
/// same choice, and so does Right then Left.
pub proof fn lemma_settings_left_right(v: SettingsView)
    requires
        v.wf(),
        sections()[v.focused as int] == SettingsSection::Theme || sections()[v.focused as int] == SettingsSection::Colormap,
    ensures
        settings_key_step(settings_key_step(v, KeyCode::Left).0, KeyCode::Right).0 == v,
        settings_key_step(settings_key_step(v, KeyCode::Right).0, KeyCode::Left).0 == v,
{
    lemma_mod_step(v.theme_idx as int, theme_names_spec().len() as int);
    lemma_mod_step(v.colormap_idx as int, colormap_names_spec().len() as int);
}

/// `k` is the same key as Up and `j` the same as Down; Down moves the focus
/// to the next setting (from the last back to the first), changing nothing
/// else and asking for nothing; and Down then Up, or Up then Down, leaves
/// the tab as it was.
pub proof fn lemma_settings_focus_keys(v: SettingsView)
    requires
        v.wf(),
    ensures
        settings_key_step(v, KeyCode::Char('k')) == settings_key_step(v, KeyCode::Up),
        settings_key_step(v, KeyCode::Char('j')) == settings_key_step(v, KeyCode::Down),
        settings_key_step(v, KeyCode::Down) == (
            SettingsView { focused: if v.focused + 1 < SECTION_COUNT { v.focused + 1 } else { 0 }, ..v },
            None::<Action>,
        ),
        settings_key_step(settings_key_step(v, KeyCode::Down).0, KeyCode::Up).0 == v,
        settings_key_step(settings_key_step(v, KeyCode::Up).0, KeyCode::Down).0 == v,
{
}

} // verus!
