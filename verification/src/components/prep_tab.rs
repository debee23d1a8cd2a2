//! The preparation tab of the workflow view: browsing the configuration
//! files, loading one, and starting a run once one is loaded. Reading files
//! and directories is left to the caller, who reports what it read.

use vstd::prelude::*;

use crate::action::Action;
use crate::config_files::{config_list, is_toml_file, lex_sorted};
use crate::keys::{KeyCode, KeyEvent};
use crate::plt_bridge::position_of;
use crate::tabs::setup::read_view;
use crate::text::{
    file_name, file_name_of, lines_of, non_blank, non_blank_lines, opt_chars, str_eq, string_views, strip_suffix, strip_suffix_of,
};

verus! {

/// The preparation tab's state.
pub struct PrepTab {
    config_path: Option<String>,
    config_loaded: bool,
    config_lines: Vec<String>,
    sim_running: bool,
    available_configs: Vec<String>,
    browser_selected: usize,
}

/// What the preparation tab holds.
pub struct PrepView {
    pub config_path: Option<Seq<char>>,
    pub config_loaded: bool,
    pub lines: Seq<Seq<char>>,
    pub sim_running: bool,
    pub configs: Seq<Seq<char>>,
    pub browser_selected: nat,
}

impl View for PrepTab {
    type V = PrepView;

    closed spec fn view(&self) -> PrepView {
        PrepView {
            config_path: opt_chars(self.config_path),
            config_loaded: self.config_loaded,
            lines: string_views(self.config_lines@),
            sim_running: self.sim_running,
            configs: string_views(self.available_configs@),
            browser_selected: self.browser_selected as nat,
        }
    }
}

impl PrepView {
    /// The selection is on a listed file, or at the top of an empty list.
    pub open spec fn wf(self) -> bool {
        if self.configs.len() > 0 {
            self.browser_selected < self.configs.len()
        } else {
            self.browser_selected == 0
        }
    }
}

/// The source lines a load shows: the file's lines that hold more than
/// whitespace, followed by a blank line and the parse error when it did not
/// parse; or the read error alone.
pub open spec fn prep_load_lines(read: Result<Seq<char>, Seq<char>>, parse_error: Option<Seq<char>>) -> Seq<Seq<char>> {
    match read {
        Err(e) => seq!["Cannot read file: "@ + e],
        Ok(raw) => {
            let shown = lines_of(raw).filter(|l: Seq<char>| non_blank(l));
            match parse_error {
                None => shown,
                Some(e) => shown.push(Seq::empty()).push("✗ Parse error: "@ + e),
            }
        },
    }
}

/// A selection kept within a list of `n` items: the last item when it was
/// past the end, the top of an empty list.
pub open spec fn clamped_selection(sel: nat, n: nat) -> nat {
    if n == 0 {
        0
    } else if sel < n {
        sel
    } else {
        (n - 1) as nat
    }
}

/// What a key asks of the preparation tab's owner.
#[derive(Debug)]
pub enum PrepKey {
    /// Send the action, if any.
    Done(Option<Action>),
    /// Read the configuration file at the path and report with `finish_load`.
    Load(String),
    /// List the configuration directory again and report with
    /// `refresh_config_list`.
    Refresh,
}

/// A key's request with the path as a view.
pub enum PrepKeyView {
    Done(Option<Action>),
    Load(Seq<char>),
    Refresh,
}

impl View for PrepKey {
    type V = PrepKeyView;

    open spec fn view(&self) -> PrepKeyView {
        match self {
            PrepKey::Done(a) => PrepKeyView::Done(*a),
            PrepKey::Load(p) => PrepKeyView::Load(p@),
            PrepKey::Refresh => PrepKeyView::Refresh,
        }
    }
}

/// The tab after a key and what the key asks for: Up and Down move through
/// the files (stopping at the ends), Enter asks to load the selected file,
/// `l` to list the directory again, and `r` starts a run when a
/// configuration is loaded and none is running.
pub open spec fn prep_key_step(v: PrepView, code: KeyCode) -> (PrepView, PrepKeyView) {
    let n = v.configs.len();
    if code == KeyCode::Up {
        (PrepView { browser_selected: if v.browser_selected == 0 { 0 } else { (v.browser_selected - 1) as nat }, ..v }, PrepKeyView::Done(None))
    } else if code == KeyCode::Down && n > 0 {
        (
            PrepView { browser_selected: if v.browser_selected + 1 <= n - 1 { v.browser_selected + 1 } else { (n - 1) as nat }, ..v },
            PrepKeyView::Done(None),
        )
    } else if code == KeyCode::Enter {
        (v, if v.browser_selected < n { PrepKeyView::Load(v.configs[v.browser_selected as int]) } else { PrepKeyView::Done(None) })
    } else if code == KeyCode::Char('l') {
        (v, PrepKeyView::Refresh)
    } else if code == KeyCode::Char('r') && !v.sim_running && v.config_loaded {
        (v, PrepKeyView::Done(Some(Action::SimStart)))
    } else {
        (v, PrepKeyView::Done(None))
    }
}

/// The tab after an action: running once a simulation starts, not once it
/// stops or reports its end.
pub open spec fn prep_action_step(v: PrepView, a: Action) -> PrepView {
    PrepView {
        sim_running: match a {
            Action::SimStart => true,
            Action::SimStop => false,
            Action::SimUpdate(st) => if st.exited() { false } else { v.sim_running },
            _ => v.sim_running,
        },
        ..v
    }
}

/// The tab at start: nothing remembered, loaded or listed.
pub open spec fn initial_prep() -> PrepView {
    PrepView {
        config_path: None,
        config_loaded: false,
        lines: Seq::empty(),
        sim_running: false,
        configs: Seq::empty(),
        browser_selected: 0,
    }
}

/// How a source line is shown: a comment (`#`), a section header (`[`), an
/// error (`✗`), or plain.
#[derive(Clone, Copy, Debug, PartialEq, Eq, Structural)]
pub enum LineKind {
    Comment,
    Section,
    Error,
    Plain,
}

/// How a source line is shown, by its first character.
pub open spec fn line_kind_spec(l: Seq<char>) -> LineKind {
    if l.len() > 0 && l[0] == '#' {
        LineKind::Comment
    } else if l.len() > 0 && l[0] == '[' {
        LineKind::Section
    } else if l.len() > 0 && l[0] == '✗' {
        LineKind::Error
    } else {
        LineKind::Plain
    }
}

/// How a source line is shown: see `line_kind_spec`.
pub fn line_kind(l: &str) -> (k: LineKind)
    ensures
        k == line_kind_spec(l@),
{
    if l.unicode_len() == 0 {
        return LineKind::Plain;
    }
    let c = l.get_char(0);
    if c == '#' {
        LineKind::Comment
    } else if c == '[' {
        LineKind::Section
    } else if c == '✗' {
        LineKind::Error
    } else {
        LineKind::Plain
    }
}

/// What the status line says: a run is going on, a configuration is ready
/// to run, or none is loaded.
#[derive(Clone, Copy, Debug, PartialEq, Eq, Structural)]
pub enum PrepStatus {
    Running,
    Ready,
    Idle,
}

/// The name a configuration file is listed under in the browser: its file
/// name without ".toml".
pub open spec fn browser_label_spec(path: Seq<char>) -> Seq<char> {
    match strip_suffix(file_name(path), ".toml"@) {
        Some(stem) => stem,
        None => file_name(path),
    }
}

/// The name a configuration file is listed under: see `browser_label_spec`.
pub fn browser_label(path: &str) -> (s: String)
    ensures
        s@ == browser_label_spec(path@),
{
    let name = file_name_of(path);
    match strip_suffix_of(name.as_str(), ".toml") {
        Some(stem) => stem,
        None => name,
    }
}

impl PrepTab {
    /// Nothing remembered, loaded or listed.
    pub fn new() -> (t: PrepTab)
        ensures
            t@.wf(),
            t@ == initial_prep(),
    {
        let t = PrepTab {
            config_path: None,
            config_loaded: false,
            config_lines: Vec::new(),
            sim_running: false,
            available_configs: Vec::new(),
            browser_selected: 0,
        };
        assert(t@.lines =~= Seq::<Seq<char>>::empty());
        assert(t@.configs =~= Seq::<Seq<char>>::empty());
        t
    }

    /// Remembers the configuration path given on the command line; when
    /// there is one, it is returned for the caller to read and report with
    /// `finish_load`.
    pub fn set_config_path(&mut self, path: Option<String>) -> (load: Option<String>)
        requires
            old(self)@.wf(),
        ensures
            final(self)@.wf(),
            final(self)@ == (PrepView { config_path: opt_chars(path), ..old(self)@ }),
            opt_chars(load) == opt_chars(path),
    {
        self.config_path = path.clone();
        path
    }

    /// Records the outcome of reading the file at `path` (its text, or the
    /// read error's message) and of parsing it (`None` when it parsed, else
    /// the parse error's message): see `prep_load_lines`. A file that was read
    /// and parsed becomes the loaded configuration.
    pub fn finish_load(&mut self, path: String, read: Result<String, String>, parse_error: Option<String>)
        requires
            old(self)@.wf(),
        ensures
            final(self)@.wf(),
            final(self)@ == (PrepView {
                config_loaded: read is Ok && parse_error is None,
                config_path: if read is Ok && parse_error is None { Some(path@) } else { old(self)@.config_path },
                lines: prep_load_lines(read_view(read), opt_chars(parse_error)),
                ..old(self)@
            }),
    {
        match read {
            Err(e) => {
                self.config_loaded = false;
                let mut ls: Vec<String> = Vec::new();
                ls.push(String::from_str("Cannot read file: ").concat(e.as_str()));
                assert(string_views(ls@) =~= seq!["Cannot read file: "@ + e@]);
                self.config_lines = ls;
            },
            Ok(raw) => {
                let mut ls = non_blank_lines(raw.as_str());
                match parse_error {
                    None => {
                        self.config_loaded = true;
                        self.config_path = Some(path);
                        self.config_lines = ls;
                    },
                    Some(e) => {
                        self.config_loaded = false;
                        let ghost l0 = string_views(ls@);
                        ls.push(String::new());
                        ls.push(String::from_str("✗ Parse error: ").concat(e.as_str()));
                        assert(string_views(ls@) =~= l0.push(Seq::empty()).push("✗ Parse error: "@ + e@));
                        self.config_lines = ls;
                    },
                }
            },
        }
    }

    /// The lines of the loaded source, as shown.
    pub fn config_lines(&self) -> (v: &Vec<String>)
        ensures
            string_views(v@) == self@.lines,
    {
        &self.config_lines
    }

    /// The configuration files listed.
    pub fn available_configs(&self) -> (v: &Vec<String>)
        ensures
            string_views(v@) == self@.configs,
    {
        &self.available_configs
    }

    /// Lists the configuration files of a directory listing (the paths of its
    /// entries): the TOML files, sorted, keeping the selection within them.
    pub fn refresh_config_list(&mut self, paths: Vec<String>)
        requires
            old(self)@.wf(),
        ensures
            final(self)@.wf(),
            final(self)@.configs.to_multiset() == string_views(paths@).filter(|p: Seq<char>| is_toml_file(p)).to_multiset(),
            lex_sorted(final(self)@.configs),
            final(self)@ == (PrepView {
                configs: final(self)@.configs,
                browser_selected: clamped_selection(old(self)@.browser_selected, final(self)@.configs.len()),
                ..old(self)@
            }),
    {
        let configs = config_list(paths);
        let n = configs.len();
        if n == 0 {
            self.browser_selected = 0;
        } else if self.browser_selected >= n {
            self.browser_selected = n - 1;
        }
        self.available_configs = configs;
    }

    /// Lists the configuration files, then selects the remembered
    /// configuration when it is among them.
    pub fn init(&mut self, paths: Vec<String>)
        requires
            old(self)@.wf(),
        ensures
            final(self)@.wf(),
            final(self)@.configs.to_multiset() == string_views(paths@).filter(|p: Seq<char>| is_toml_file(p)).to_multiset(),
            lex_sorted(final(self)@.configs),
            final(self)@.config_path == old(self)@.config_path,
            final(self)@.lines == old(self)@.lines,
            final(self)@.config_loaded == old(self)@.config_loaded,
            final(self)@.sim_running == old(self)@.sim_running,
            final(self)@.browser_selected == (match old(self)@.config_path {
                Some(p) => match position_of(final(self)@.configs, p) {
                    Some(i) => i,
                    None => clamped_selection(old(self)@.browser_selected, final(self)@.configs.len()),
                },
                None => clamped_selection(old(self)@.browser_selected, final(self)@.configs.len()),
            }),
    {
        let ghost pv = string_views(paths@);
        self.refresh_config_list(paths);
        let n = self.available_configs.len();
        match &self.config_path {
            Some(p) => {
                let ghost cs = self@.configs;
                let ghost mid = self@;
                let mut i: usize = 0;
                while i < n
                    invariant
                        n == self.available_configs@.len(),
                        cs == string_views(self.available_configs@),
                        self@ == mid,
                        mid.configs == cs,
                        mid.wf(),
                        lex_sorted(cs),
                        cs.to_multiset() == pv.filter(|p: Seq<char>| is_toml_file(p)).to_multiset(),
                        pv == string_views(paths@),
                        mid.config_path == old(self)@.config_path,
                        mid.lines == old(self)@.lines,
                        mid.config_loaded == old(self)@.config_loaded,
                        mid.sim_running == old(self)@.sim_running,
                        mid.browser_selected == clamped_selection(old(self)@.browser_selected, cs.len()),
                        old(self)@.config_path == Some(p@),
                        i <= n,
                        forall|k: int| 0 <= k < i ==> cs[k] != p@,
                    decreases n - i,
                {
                    if str_eq(self.available_configs[i].as_str(), p.as_str()) {
                        proof {
                            assert(cs[i as int] == p@);
                            let j = choose|j: int| 0 <= j < cs.len() && cs[j] == p@ && forall|k: int| 0 <= k < j ==> cs[k] != p@;
                            assert(i as int == j) by {
                                if (i as int) < j {
                                } else if j < i {
                                    assert(cs[j] != p@);
                                }
                            }
                        }
                        self.browser_selected = i;
                        return;
                    }
                    i = i + 1;
                }
                assert(!(exists|k: int| 0 <= k < cs.len() && cs[k] == p@));
            },
            None => {},
        }
    }

    /// Whether a configuration is loaded.
    pub fn config_loaded(&self) -> (b: bool)
        ensures
            b == self@.config_loaded,
    {
        self.config_loaded
    }

    /// The selected configuration file's position.
    pub fn browser_selected(&self) -> (i: usize)
        ensures
            i == self@.browser_selected,
    {
        self.browser_selected
    }

    /// What the status line says.
    pub fn status(&self) -> (st: PrepStatus)
        ensures
            st == (if self@.sim_running {
                PrepStatus::Running
            } else if self@.config_loaded {
                PrepStatus::Ready
            } else {
                PrepStatus::Idle
            }),
    {
        if self.sim_running {
            PrepStatus::Running
        } else if self.config_loaded {
            PrepStatus::Ready
        } else {
            PrepStatus::Idle
        }
    }

    /// The name a configuration file is listed under: its file name.
    pub fn display_name(path: &str) -> (s: String)
        ensures
            s@ == file_name(path@),
    {
        file_name_of(path)
    }

    /// Handles a key: see `prep_key_step`.
    pub fn handle_key_event(&mut self, key: KeyEvent) -> (r: PrepKey)
        requires
            old(self)@.wf(),
        ensures
            final(self)@.wf(),
            (final(self)@, r@) == prep_key_step(old(self)@, key.code),
    {
        let code = key.code;
        let n = self.available_configs.len();
        if code == KeyCode::Up {
            self.browser_selected = self.browser_selected.saturating_sub(1);
            PrepKey::Done(None)
        } else if code == KeyCode::Down && n > 0 {
            self.browser_selected = if self.browser_selected + 1 <= n - 1 { self.browser_selected + 1 } else { n - 1 };
            PrepKey::Done(None)
        } else if code == KeyCode::Enter {
            if self.browser_selected < n {
                let p = self.available_configs[self.browser_selected].clone();
                proof {
                    assert(self@.configs[self.browser_selected as int] == self.available_configs@[self.browser_selected as int]@);
                }
                PrepKey::Load(p)
            } else {
                PrepKey::Done(None)
            }
        } else if code == KeyCode::Char('l') {
            PrepKey::Refresh
        } else if code == KeyCode::Char('r') && !self.sim_running && self.config_loaded {
            PrepKey::Done(Some(Action::SimStart))
        } else {
            PrepKey::Done(None)
        }
    }

    /// Follows an action: see `prep_action_step`.
    pub fn update(&mut self, action: &Action)
        requires
            old(self)@.wf(),
        ensures
            final(self)@.wf(),
            final(self)@ == prep_action_step(old(self)@, *action),
    {
        match action {
            Action::SimStart => self.sim_running = true,
            Action::SimStop => self.sim_running = false,
            Action::SimUpdate(st) => {
                if st.has_exited() {
                    self.sim_running = false;
                }
            },
            _ => {},
        }
    }
}

/// Away from the last file, Down then Up comes back to the same file.
pub proof fn lemma_prep_down_up(v: PrepView)
    requires
        v.wf(),
        v.browser_selected + 1 < v.configs.len(),
    ensures
        prep_key_step(prep_key_step(v, KeyCode::Down).0, KeyCode::Up).0 == v,
{
}

} // verus!
