use vstd::prelude::*;

use crate::action::Action;
use crate::keys::{KeyCode, KeyEvent};

verus! {

/// The formats the export menu offers.
#[derive(Debug, Clone, Copy, PartialEq, Eq, Structural)]
pub enum ExportFormat {
    /// The current view as vector graphics.
    Screenshot,
    /// The diagnostics history as CSV.
    Csv,
    /// The diagnostics history as JSON.
    Json,
    /// The diagnostics history as Parquet columns.
    Parquet,
    /// The current configuration.
    Toml,
    /// A ParaView-readable density snapshot.
    Vtk,
    /// The raw density array.
    Npy,
    /// A full report of the run.
    Markdown,
    /// Animation frames.
    Animation,
    /// Radial density and dispersion profiles as CSV.
    CsvProfiles,
    /// Step timings as Parquet.
    ParquetPerformance,
    /// Everything: configuration, diagnostics, snapshots and scripts.
    Zip,
}

/// The number of formats in the menu.
pub const FORMAT_COUNT: usize = 12;

/// The menu's formats, in the order shown.
pub open spec fn formats() -> Seq<ExportFormat> {
    seq![
        ExportFormat::Screenshot,
        ExportFormat::Csv,
        ExportFormat::Json,
        ExportFormat::Parquet,
        ExportFormat::Toml,
        ExportFormat::Vtk,
        ExportFormat::Npy,
        ExportFormat::Markdown,
        ExportFormat::Animation,
        ExportFormat::CsvProfiles,
        ExportFormat::ParquetPerformance,
        ExportFormat::Zip,
    ]
}

/// The keys that pick the formats, in the menu's order: `1` to `9`, then
/// `0`, `a` and `z`.
pub open spec fn format_keys() -> Seq<char> {
    seq!['1', '2', '3', '4', '5', '6', '7', '8', '9', '0', 'a', 'z']
}

/// The names the menu shows for the formats, in its order.
pub open spec fn format_names() -> Seq<Seq<char>> {
    seq![
        "SVG screenshot"@,
        "CSV time series"@,
        "JSON time series"@,
        "Parquet time series"@,
        "TOML config"@,
        "VTK snapshot"@,
        "NumPy .npy"@,
        "Markdown report"@,
        "Frame sequence"@,
        "CSV radial profiles"@,
        "Parquet performance"@,
        "ZIP archive"@,
    ]
}

/// The format at position `i` of the menu.
pub fn format_at(i: usize) -> (f: ExportFormat)
    requires
        i < FORMAT_COUNT,
    ensures
        f == formats()[i as int],
{
    match i {
        0 => ExportFormat::Screenshot,
        1 => ExportFormat::Csv,
        2 => ExportFormat::Json,
        3 => ExportFormat::Parquet,
        4 => ExportFormat::Toml,
        5 => ExportFormat::Vtk,
        6 => ExportFormat::Npy,
        7 => ExportFormat::Markdown,
        8 => ExportFormat::Animation,
        9 => ExportFormat::CsvProfiles,
        10 => ExportFormat::ParquetPerformance,
        _ => ExportFormat::Zip,
    }
}

/// The key that picks the format at position `i` of the menu.
pub fn format_key(i: usize) -> (c: char)
    requires
        i < FORMAT_COUNT,
    ensures
        c == format_keys()[i as int],
{
    match i {
        0 => '1',
        1 => '2',
        2 => '3',
        3 => '4',
        4 => '5',
        5 => '6',
        6 => '7',
        7 => '8',
        8 => '9',
        9 => '0',
        10 => 'a',
        _ => 'z',
    }
}

/// The name the menu shows for the format at position `i`.
pub fn format_name(i: usize) -> (s: &'static str)
    requires
        i < FORMAT_COUNT,
    ensures
        s@ == format_names()[i as int],
{
    match i {
        0 => "SVG screenshot",
        1 => "CSV time series",
        2 => "JSON time series",
        3 => "Parquet time series",
        4 => "TOML config",
        5 => "VTK snapshot",
        6 => "NumPy .npy",
        7 => "Markdown report",
        8 => "Frame sequence",
        9 => "CSV radial profiles",
        10 => "Parquet performance",
        _ => "ZIP archive",
    }
}

/// The export overlay: a list of formats with one selected, and the outcome
/// of the last export.
#[derive(Debug)]
pub struct ExportMenu {
    pub visible: bool,
    selected: usize,
    pub last_result: Option<Result<String, String>>,
}

/// What an export menu is: shown or not, the selected position, and the
/// outcome of the last export (the path written, or the error's message).
pub struct ExportMenuView {
    pub visible: bool,
    pub selected: nat,
    pub last_result: Option<Result<Seq<char>, Seq<char>>>,
}

/// The view of an export outcome.
pub open spec fn result_view(r: Option<Result<String, String>>) -> Option<Result<Seq<char>, Seq<char>>> {
    match r {
        Some(Ok(p)) => Some(Ok(p@)),
        Some(Err(e)) => Some(Err(e@)),
        None => None,
    }
}

impl View for ExportMenu {
    type V = ExportMenuView;

    closed spec fn view(&self) -> ExportMenuView {
        ExportMenuView { visible: self.visible, selected: self.selected as nat, last_result: result_view(self.last_result) }
    }
}

impl ExportMenuView {
    /// The selection is one of the formats.
    pub open spec fn wf(self) -> bool {
        self.selected < FORMAT_COUNT
    }
}

/// The position a shortcut key selects: `1` the first format, … `9` the
/// ninth, `0` the tenth, `a` the eleventh, `z` the twelfth.
pub open spec fn shortcut_index(c: char) -> Option<nat> {
    if '1' <= c && c <= '9' {
        Some((c as u32 - '1' as u32) as nat)
    } else if c == '0' {
        Some(9)
    } else if c == 'a' {
        Some(10)
    } else if c == 'z' {
        Some(11)
    } else {
        None
    }
}

/// The menu after a key, and the action it answers with.
pub open spec fn export_key_step(m: ExportMenuView, code: KeyCode) -> (ExportMenuView, Option<Action>) {
    match code {
        KeyCode::Up => (ExportMenuView { selected: if m.selected == 0 { 0 } else { (m.selected - 1) as nat }, ..m }, None),
        KeyCode::Down => (ExportMenuView { selected: if m.selected + 1 < FORMAT_COUNT { m.selected + 1 } else { (FORMAT_COUNT - 1) as nat }, ..m }, None),
        KeyCode::Enter => (ExportMenuView { visible: false, ..m }, Some(Action::ExportMenuClose)),
        KeyCode::Esc => (ExportMenuView { visible: false, ..m }, None),
        KeyCode::Char(c) => match shortcut_index(c) {
            Some(i) => (ExportMenuView { visible: false, selected: i, ..m }, Some(Action::ExportMenuClose)),
            None => (m, None),
        },
        _ => (m, None),
    }
}

impl ExportMenu {
    /// A hidden menu with the first format selected and no result.
    pub fn new() -> (m: ExportMenu)
        ensures
            m@ == (ExportMenuView { visible: false, selected: 0, last_result: None }),
    {
        ExportMenu { visible: false, selected: 0, last_result: None }
    }

    /// Whether it shows.
    pub fn is_visible(&self) -> (b: bool)
        ensures
            b == self@.visible,
    {
        self.visible
    }

    /// Records the outcome of an export.
    pub fn set_last_result(&mut self, r: Option<Result<String, String>>)
        ensures
            final(self)@ == (ExportMenuView { last_result: result_view(r), ..old(self)@ }),
    {
        self.last_result = r;
    }

    /// The selected position.
    pub fn selected(&self) -> (i: usize)
        ensures
            i == self@.selected,
    {
        self.selected
    }

    /// Shows or hides the menu and forgets the last result.
    pub fn toggle(&mut self)
        ensures
            final(self)@ == (ExportMenuView { visible: !old(self)@.visible, selected: old(self)@.selected, last_result: None }),
    {
        self.visible = !self.visible;
        self.last_result = None;
    }

    /// The selected format.
    pub fn selected_format(&self) -> (f: ExportFormat)
        requires
            self@.wf(),
        ensures
            f == formats()[self@.selected as int],
    {
        format_at(self.selected)
    }

    /// Up and Down move the selection within the list; Enter closes the menu
    /// and asks for the export; Esc closes it; a shortcut key (`1`–`9`, `0`,
    /// `a`, `z`) selects its format, closes the menu and asks for the export.
    pub fn handle_key_event(&mut self, key: KeyEvent) -> (a: Option<Action>)
        requires
            old(self)@.wf(),
        ensures
            final(self)@.wf(),
            (final(self)@, a) == export_key_step(old(self)@, key.code),
    {
        match key.code {
            KeyCode::Up => {
                self.selected = self.selected.saturating_sub(1);
                None
            },
            KeyCode::Down => {
                self.selected = if self.selected + 1 < FORMAT_COUNT { self.selected + 1 } else { FORMAT_COUNT - 1 };
                None
            },
            KeyCode::Enter => {
                self.visible = false;
                Some(Action::ExportMenuClose)
            },
            KeyCode::Esc => {
                self.visible = false;
                None
            },
            KeyCode::Char(c) => {
                let code = c as u32;
                let idx: Option<usize> = if '1' as u32 <= code && code <= '9' as u32 {
                    Some((code - '1' as u32) as usize)
                } else if c == '0' {
                    Some(9)
                } else if c == 'a' {
                    Some(10)
                } else if c == 'z' {
                    Some(11)
                } else {
                    None
                };
                match idx {
                    Some(i) => {
                        self.selected = i;
                        self.visible = false;
                        Some(Action::ExportMenuClose)
                    },
                    None => None,
                }
            },
            _ => None,
        }
    }
}

impl Default for ExportMenu {
    fn default() -> (m: ExportMenu)
        ensures
            m@ == (ExportMenuView { visible: false, selected: 0, last_result: None }),
    {
        ExportMenu::new()
    }
}

/// Every key leaves the selection on one of the formats.
pub proof fn lemma_export_key_keeps_wf(m: ExportMenuView, code: KeyCode)
    requires
        m.wf(),
    ensures
        export_key_step(m, code).0.wf(),
{
}

/// Each format's key selects that format, closes the menu and asks for its
/// export.
pub proof fn lemma_key_selects(m: ExportMenuView, i: int)
    requires
        0 <= i < FORMAT_COUNT,
    ensures
        export_key_step(m, KeyCode::Char(format_keys()[i])).0 == (ExportMenuView { visible: false, selected: i as nat, ..m }),
        export_key_step(m, KeyCode::Char(format_keys()[i])).1 == Some(Action::ExportMenuClose),
{
}

} // verus!
