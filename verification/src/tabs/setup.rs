//! The Setup tab: browsing configuration files, the preset list and the
//! scrolling of the TOML source. Reading and parsing files is left to the
//! caller, who reports each load back with `after_load`.

use vstd::prelude::*;

use crate::action::Action;
use crate::keys::{KeyCode, KeyEvent};
use crate::config_files::{config_list, is_toml_file, lex_sorted};
use crate::plt_bridge::lemma_mod_step;
use crate::text::{lines, lines_of, opt_chars, string_views};

verus! {

/// The number of built-in presets.
pub const PRESET_COUNT: usize = 24;

/// The built-in presets, in the order of the preset list.
pub open spec fn preset_names() -> Seq<Seq<char>> {
    seq![
        "plummer"@, "debug"@, "plummer_hires"@, "hernquist"@, "king"@, "nfw"@, "plummer_ht"@,
        "plummer_tt"@, "plummer_spectral"@, "plummer_yoshida"@, "plummer_unsplit"@,
        "plummer_lomac"@, "plummer_multigrid"@, "plummer_spherical"@,
        "plummer_tensor_poisson"@, "nfw_tree"@, "zeldovich"@, "disk_bar"@, "jeans_unstable"@,
        "jeans_stable"@, "merger_equal"@, "merger_unequal"@, "tidal_point"@, "tidal_nfw"@,
    ]
}

/// The name of the preset at position `i`.
pub fn preset_name(i: usize) -> (s: &'static str)
    requires
        i < PRESET_COUNT,
    ensures
        s@ == preset_names()[i as int],
{
    match i {
        0 => "plummer",
        1 => "debug",
        2 => "plummer_hires",
        3 => "hernquist",
        4 => "king",
        5 => "nfw",
        6 => "plummer_ht",
        7 => "plummer_tt",
        8 => "plummer_spectral",
        9 => "plummer_yoshida",
        10 => "plummer_unsplit",
        11 => "plummer_lomac",
        12 => "plummer_multigrid",
        13 => "plummer_spherical",
        14 => "plummer_tensor_poisson",
        15 => "nfw_tree",
        16 => "zeldovich",
        17 => "disk_bar",
        18 => "jeans_unstable",
        19 => "jeans_stable",
        20 => "merger_equal",
        21 => "merger_unequal",
        22 => "tidal_point",
        _ => "tidal_nfw",
    }
}

/// The file a preset is read from: `configs/<name>.toml`.
pub open spec fn preset_path(name: Seq<char>) -> Seq<char> {
    "configs/"@ + name + ".toml"@
}

/// What a key asks of the Setup tab's owner.
#[derive(Debug)]
pub enum SetupKey {
    /// Send the action, if any.
    Done(Option<Action>),
    /// Read the configuration file at the path and report with `finish_load`.
    Load(String),
}

/// A key's request with the path as a view.
pub enum SetupKeyView {
    Done(Option<Action>),
    Load(Seq<char>),
}

impl View for SetupKey {
    type V = SetupKeyView;

    open spec fn view(&self) -> SetupKeyView {
        match self {
            SetupKey::Done(a) => SetupKeyView::Done(*a),
            SetupKey::Load(p) => SetupKeyView::Load(p@),
        }
    }
}

/// The Setup tab's navigation state.
pub struct SetupTab {
    config_path: Option<String>,
    config_loaded: bool,
    config_lines: Vec<String>,
    available_configs: Vec<String>,
    browser_selected: usize,
    sim_running: bool,
    preset_popup: bool,
    preset_selected: usize,
    toml_scroll: u16,
}

/// What the Setup tab holds.
pub struct SetupView {
    pub config_path: Option<Seq<char>>,
    pub config_loaded: bool,
    pub line_count: nat,
    pub lines: Seq<Seq<char>>,
    pub configs: Seq<Seq<char>>,
    pub browser_selected: nat,
    pub sim_running: bool,
    pub preset_popup: bool,
    pub preset_selected: nat,
    pub toml_scroll: u16,
}

impl View for SetupTab {
    type V = SetupView;

    closed spec fn view(&self) -> SetupView {
        SetupView {
            config_path: match self.config_path {
                Some(p) => Some(p@),
                None => None,
            },
            config_loaded: self.config_loaded,
            line_count: self.config_lines@.len(),
            lines: string_views(self.config_lines@),
            configs: string_views(self.available_configs@),
            browser_selected: self.browser_selected as nat,
            sim_running: self.sim_running,
            preset_popup: self.preset_popup,
            preset_selected: self.preset_selected as nat,
            toml_scroll: self.toml_scroll,
        }
    }
}

impl SetupView {
    /// The selections point into their lists.
    pub open spec fn wf(self) -> bool {
        &&& self.preset_selected < PRESET_COUNT
        &&& (self.configs.len() > 0 ==> self.browser_selected < self.configs.len())
        &&& self.line_count == self.lines.len()
    }
}

/// The largest TOML scroll for a number of lines: one less than the number
/// of lines (none for an empty source), cut to 16 bits as `as u16` does.
pub open spec fn max_scroll(line_count: nat) -> u16 {
    (if line_count == 0 { 0 } else { (line_count - 1) as nat }) as u16
}

/// The Setup tab after a key and what it asks of its owner.
///
/// While the preset list shows, Down/`j` and Up/`k` move through it
/// (wrapping), Enter closes it and asks to load the selected preset, Esc
/// closes it, and every other key is ignored. Otherwise Down/`j` and
/// Up/`k` move through the configuration files (wrapping), Enter asks to load
/// the selected one, `r` starts the simulation once a configuration is
/// loaded, and `[`/`]` scroll the TOML source.
pub open spec fn setup_key_step(v: SetupView, code: KeyCode) -> (SetupView, SetupKeyView) {
    let down = code == KeyCode::Down || code == KeyCode::Char('j');
    let up = code == KeyCode::Up || code == KeyCode::Char('k');
    let n = v.configs.len();
    if v.preset_popup {
        if down {
            (SetupView { preset_selected: ((v.preset_selected + 1) % PRESET_COUNT as nat) as nat, ..v }, SetupKeyView::Done(None))
        } else if up {
            (SetupView { preset_selected: ((v.preset_selected + PRESET_COUNT - 1) % (PRESET_COUNT as int)) as nat, ..v }, SetupKeyView::Done(None))
        } else if code == KeyCode::Enter {
            (SetupView { preset_popup: false, ..v }, SetupKeyView::Load(preset_path(preset_names()[v.preset_selected as int])))
        } else if code == KeyCode::Esc {
            (SetupView { preset_popup: false, ..v }, SetupKeyView::Done(None))
        } else {
            (v, SetupKeyView::Done(None))
        }
    } else if down {
        (SetupView { browser_selected: if n > 0 { ((v.browser_selected + 1) % n) as nat } else { v.browser_selected }, ..v }, SetupKeyView::Done(None))
    } else if up {
        (SetupView { browser_selected: if n > 0 { ((v.browser_selected + n - 1) % (n as int)) as nat } else { v.browser_selected }, ..v }, SetupKeyView::Done(None))
    } else if code == KeyCode::Enter {
        (v, if v.browser_selected < n { SetupKeyView::Load(v.configs[v.browser_selected as int]) } else { SetupKeyView::Done(None) })
    } else if code == KeyCode::Char('r') && v.config_loaded {
        (v, SetupKeyView::Done(Some(Action::SimStart)))
    } else if code == KeyCode::Char('[') {
        (SetupView { toml_scroll: if v.toml_scroll == 0 { 0 } else { (v.toml_scroll - 1) as u16 }, ..v }, SetupKeyView::Done(None))
    } else if code == KeyCode::Char(']') {
        let up1: u16 = if v.toml_scroll == u16::MAX { u16::MAX } else { (v.toml_scroll + 1) as u16 };
        let m = max_scroll(v.line_count);
        (SetupView { toml_scroll: if up1 <= m { up1 } else { m }, ..v }, SetupKeyView::Done(None))
    } else {
        (v, SetupKeyView::Done(None))
    }
}

/// The Setup tab at start: the configuration path remembered, nothing
/// loaded or listed, the preset list hidden.
pub open spec fn initial_setup(config_path: Option<Seq<char>>) -> SetupView {
    SetupView {
        config_path,
        config_loaded: false,
        line_count: 0,
        lines: Seq::empty(),
        configs: Seq::empty(),
        browser_selected: 0,
        sim_running: false,
        preset_popup: false,
        preset_selected: 0,
        toml_scroll: 0,
    }
}

/// The Setup tab after an action: running once a simulation starts, not once
/// it stops or reports its end.
pub open spec fn setup_action_step(v: SetupView, a: Action) -> SetupView {
    SetupView {
        sim_running: match a {
            Action::SimStart => true,
            Action::SimStop => false,
            Action::SimUpdate(st) => if st.exited() { false } else { v.sim_running },
            _ => v.sim_running,
        },
        ..v
    }
}

/// The source lines a load shows: the file's lines, followed by the parse
/// error when it did not parse; or the read error alone.
pub open spec fn load_lines(read: Result<Seq<char>, Seq<char>>, parse_error: Option<Seq<char>>) -> Seq<Seq<char>> {
    match read {
        Err(e) => seq!["Cannot read file: "@ + e],
        Ok(raw) => match parse_error {
            None => lines_of(raw),
            Some(e) => lines_of(raw).push("✗ Parse error: "@ + e),
        },
    }
}

/// The view of a read's outcome.
pub open spec fn read_view(read: Result<String, String>) -> Result<Seq<char>, Seq<char>> {
    match read {
        Ok(t) => Ok(t@),
        Err(e) => Err(e@),
    }
}

impl SetupTab {
    /// No configuration loaded, no files listed, the preset list hidden.
    pub fn new(config_path: Option<String>) -> (t: SetupTab)
        ensures
            t@.wf(),
            t@ == initial_setup(opt_chars(config_path)),
    {
        let t = SetupTab {
            config_path,
            config_loaded: false,
            config_lines: Vec::new(),
            available_configs: Vec::new(),
            browser_selected: 0,
            sim_running: false,
            preset_popup: false,
            preset_selected: 0,
            toml_scroll: 0,
        };
        assert(t@.lines =~= Seq::<Seq<char>>::empty());
        assert(t@.configs =~= Seq::<Seq<char>>::empty());
        t
    }

    /// Whether a configuration is loaded.
    pub fn config_loaded(&self) -> (b: bool)
        ensures
            b == self@.config_loaded,
    {
        self.config_loaded
    }

    /// The selected configuration file's position.
    pub fn browser_selected(&self) -> (i: usize)
        ensures
            i == self@.browser_selected,
    {
        self.browser_selected
    }

    /// The TOML source's scroll.
    pub fn toml_scroll(&self) -> (s: u16)
        ensures
            s == self@.toml_scroll,
    {
        self.toml_scroll
    }

    /// Whether the preset list shows.
    pub fn preset_popup_shown(&self) -> (b: bool)
        ensures
            b == self@.preset_popup,
    {
        self.preset_popup
    }

    /// The preset selected in the preset list.
    pub fn preset_selected(&self) -> (i: usize)
        ensures
            i == self@.preset_selected,
    {
        self.preset_selected
    }

    /// Replaces the list of configuration files, keeping the selection within
    /// it.
    pub fn set_available_configs(&mut self, configs: Vec<String>)
        requires
            old(self)@.wf(),
        ensures
            final(self)@.wf(),
            final(self)@ == (SetupView {
                configs: string_views(configs@),
                browser_selected: if configs@.len() > 0 && old(self)@.browser_selected >= configs@.len() {
                    (configs@.len() - 1) as nat
                } else {
                    old(self)@.browser_selected
                },
                ..old(self)@
            }),
    {
        if configs.len() > 0 && self.browser_selected >= configs.len() {
            self.browser_selected = configs.len() - 1;
        }
        self.available_configs = configs;
    }

    /// The lines of the loaded source, as shown.
    pub fn config_lines(&self) -> (v: &Vec<String>)
        ensures
            string_views(v@) == self@.lines,
    {
        &self.config_lines
    }

    /// The configuration files listed.
    pub fn available_configs(&self) -> (v: &Vec<String>)
        ensures
            string_views(v@) == self@.configs,
    {
        &self.available_configs
    }

    /// Lists the configuration files of a directory listing (the paths of its
    /// entries): the TOML files, sorted, keeping the selection within them.
    pub fn refresh_config_list(&mut self, paths: Vec<String>)
        requires
            old(self)@.wf(),
        ensures
            final(self)@.wf(),
            final(self)@.configs.to_multiset() == string_views(paths@).filter(|p: Seq<char>| is_toml_file(p)).to_multiset(),
            lex_sorted(final(self)@.configs),
            final(self)@ == (SetupView {
                configs: final(self)@.configs,
                browser_selected: if final(self)@.configs.len() > 0 && old(self)@.browser_selected >= final(self)@.configs.len() {
                    (final(self)@.configs.len() - 1) as nat
                } else {
                    old(self)@.browser_selected
                },
                ..old(self)@
            }),
    {
        self.set_available_configs(config_list(paths));
    }

    /// Toggle the preset selection popup.
    pub fn toggle_preset_popup(&mut self)
        requires
            old(self)@.wf(),
        ensures
            final(self)@.wf(),
            final(self)@ == (SetupView { preset_popup: !old(self)@.preset_popup, preset_selected: 0, ..old(self)@ }),
    {
        self.preset_popup = !self.preset_popup;
        self.preset_selected = 0;
    }

    /// Reset config to defaults: a loaded default configuration whose source
    /// is a single comment line.
    pub fn reset_to_defaults(&mut self)
        requires
            old(self)@.wf(),
        ensures
            final(self)@.wf(),
            final(self)@ == (SetupView {
                config_loaded: true,
                line_count: 1,
                lines: seq!["# Default configuration"@],
                toml_scroll: 0,
                ..old(self)@
            }),
    {
        self.config_loaded = true;
        let mut lines: Vec<String> = Vec::new();
        lines.push(String::from_str("# Default configuration"));
        self.config_lines = lines;
        self.toml_scroll = 0;
        assert(self@.lines =~= seq!["# Default configuration"@]);
    }

    /// Records the outcome of loading the file at `path`: its source lines
    /// and whether it parsed. A configuration that loaded becomes the
    /// current one and is announced; one that did not leaves the tab without
    /// a loaded configuration.
    fn after_load(&mut self, path: String, loaded: bool, lines: Vec<String>) -> (a: Option<Action>)
        requires
            old(self)@.wf(),
        ensures
            final(self)@.wf(),
            final(self)@ == (SetupView {
                config_loaded: loaded,
                config_path: if loaded { Some(path@) } else { old(self)@.config_path },
                line_count: lines@.len(),
                lines: string_views(lines@),
                toml_scroll: 0,
                ..old(self)@
            }),
            a == (if loaded { Some(Action::ConfigLoaded(path)) } else { None }),
    {
        self.toml_scroll = 0;
        self.config_loaded = loaded;
        self.config_lines = lines;
        if loaded {
            self.config_path = Some(path.clone());
            Some(Action::ConfigLoaded(path))
        } else {
            None
        }
    }

    /// Records the outcome of reading the file at `path` (its text, or the
    /// read error's message) and of parsing it (`None` when it parsed, else
    /// the parse error's message): see `load_lines`. A file that was read and
    /// parsed becomes the current configuration and is announced.
    pub fn finish_load(&mut self, path: String, read: Result<String, String>, parse_error: Option<String>) -> (a: Option<Action>)
        requires
            old(self)@.wf(),
        ensures
            final(self)@.wf(),
            final(self)@ == (SetupView {
                config_loaded: read is Ok && parse_error is None,
                config_path: if read is Ok && parse_error is None { Some(path@) } else { old(self)@.config_path },
                line_count: load_lines(read_view(read), opt_chars(parse_error)).len(),
                lines: load_lines(read_view(read), opt_chars(parse_error)),
                toml_scroll: 0,
                ..old(self)@
            }),
            a == (if read is Ok && parse_error is None { Some(Action::ConfigLoaded(path)) } else { None }),
    {
        match read {
            Err(e) => {
                let mut ls: Vec<String> = Vec::new();
                ls.push(String::from_str("Cannot read file: ").concat(e.as_str()));
                assert(string_views(ls@) =~= seq!["Cannot read file: "@ + e@]);
                self.after_load(path, false, ls)
            },
            Ok(raw) => {
                let mut ls = lines(raw.as_str());
                match parse_error {
                    None => self.after_load(path, true, ls),
                    Some(e) => {
                        let ghost l0 = string_views(ls@);
                        ls.push(String::from_str("✗ Parse error: ").concat(e.as_str()));
                        assert(string_views(ls@) =~= l0.push("✗ Parse error: "@ + e@));
                        self.after_load(path, false, ls)
                    },
                }
            },
        }
    }

    /// Handles a key: see `setup_key_step`.
    pub fn handle_key_event(&mut self, key: KeyEvent) -> (r: SetupKey)
        requires
            old(self)@.wf(),
        ensures
            final(self)@.wf(),
            (final(self)@, r@) == setup_key_step(old(self)@, key.code),
    {
        let code = key.code;
        let down = code == KeyCode::Down || code == KeyCode::Char('j');
        let up = code == KeyCode::Up || code == KeyCode::Char('k');
        let n = self.available_configs.len();
        // Preset popup intercepts keys when visible
        if self.preset_popup {
            if down {
                self.preset_selected = (self.preset_selected + 1) % PRESET_COUNT;
            } else if up {
                self.preset_selected = (self.preset_selected + PRESET_COUNT - 1) % PRESET_COUNT;
            } else if code == KeyCode::Enter {
                let name = preset_name(self.preset_selected);
                self.preset_popup = false;
                let path = String::from_str("configs/").concat(name).concat(".toml");
                return SetupKey::Load(path);
            } else if code == KeyCode::Esc {
                self.preset_popup = false;
            }
            return SetupKey::Done(None);
        }
        if down {
            if n > 0 {
                self.browser_selected = (self.browser_selected + 1) % n;
            }
            SetupKey::Done(None)
        } else if up {
            if n > 0 {
                let b = self.browser_selected;
                proof {
                    let nn = n as int;
                    if b == 0 {
                        assert((0 + nn - 1) % nn == nn - 1) by (nonlinear_arith)
                            requires nn > 0;
                    } else {
                        assert((b + nn - 1) % nn == b - 1) by (nonlinear_arith)
                            requires 0 < b < nn;
                    }
                }
                self.browser_selected = if b == 0 { n - 1 } else { b - 1 };
            }
            SetupKey::Done(None)
        } else if code == KeyCode::Enter {
            if self.browser_selected < n {
                let p = self.available_configs[self.browser_selected].clone();
                proof {
                    assert(string_views(self.available_configs@)[self.browser_selected as int] == self.available_configs@[self.browser_selected as int]@);
                }
                SetupKey::Load(p)
            } else {
                SetupKey::Done(None)
            }
        } else if code == KeyCode::Char('r') && self.config_loaded {
            SetupKey::Done(Some(Action::SimStart))
        } else if code == KeyCode::Char('[') {
            self.toml_scroll = self.toml_scroll.saturating_sub(1);
            SetupKey::Done(None)
        } else if code == KeyCode::Char(']') {
            let lines = self.config_lines.len();
            let m: u16 = if lines == 0 { 0 } else { #[verifier::truncate] ((lines - 1) as u16) };
            let up1 = self.toml_scroll.saturating_add(1);
            self.toml_scroll = if up1 <= m { up1 } else { m };
            SetupKey::Done(None)
        } else {
            SetupKey::Done(None)
        }
    }

    /// Follows the simulation's state: running once started, not once it
    /// stops or reports its end.
    pub fn update(&mut self, action: &Action)
        requires
            old(self)@.wf(),
        ensures
            final(self)@.wf(),
            final(self)@ == setup_action_step(old(self)@, *action),
    {
        match action {
            Action::SimStart => self.sim_running = true,
            Action::SimStop => self.sim_running = false,
            Action::SimUpdate(st) => {
                if st.has_exited() {
                    self.sim_running = false;
                }
            },
            _ => {},
        }
    }
}

/// Every key keeps the selections within their lists.
pub proof fn lemma_setup_key_keeps_wf(v: SetupView, code: KeyCode)
    requires
        v.wf(),
    ensures
        setup_key_step(v, code).0.wf(),
{
}

/// Enter on the preset list asks to load `configs/<name>.toml` for the
/// selected preset.
pub proof fn lemma_preset_enter_loads(v: SetupView)
    requires
        v.wf(),
        v.preset_popup,
    ensures
        setup_key_step(v, KeyCode::Enter).1 == SetupKeyView::Load("configs/"@ + preset_names()[v.preset_selected as int] + ".toml"@),
        !setup_key_step(v, KeyCode::Enter).0.preset_popup,
{
}

/// With files listed and the preset list hidden, Down then Up comes back to
/// the same file; in the preset list, to the same preset.
pub proof fn lemma_setup_down_up(v: SetupView)
    requires
        v.wf(),
        !v.preset_popup ==> v.configs.len() > 0,
    ensures
        setup_key_step(setup_key_step(v, KeyCode::Down).0, KeyCode::Up).0 == v,
{
    if v.preset_popup {
        lemma_mod_step(v.preset_selected as int, PRESET_COUNT as int);
    } else {
        lemma_mod_step(v.browser_selected as int, v.configs.len() as int);
    }
}

} // verus!
