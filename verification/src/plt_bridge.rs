//! The theme and colormap selections, cycled through the names that
//! ratatui-plt offers, and the heatmap normalization modes.

use vstd::prelude::*;

use crate::text::string_views;

verus! {

/// The theme presets that `ratatui_plt::theme::theme_names` lists, in its order.
pub open spec fn theme_names_spec() -> Seq<Seq<char>> {
    seq!["dark"@, "light"@, "solarized"@, "gruvbox"@, "minimal"@, "publication"@]
}

/// The colormaps that `ratatui_plt::colormap::colormap_names` lists, in its order.
pub open spec fn colormap_names_spec() -> Seq<Seq<char>> {
    seq![
        "viridis"@, "plasma"@, "inferno"@, "magma"@, "cividis"@, "hot"@, "spring"@,
        "summer"@, "autumn"@, "winter"@, "blues"@, "greens"@, "reds"@, "oranges"@,
        "purples"@, "greys"@, "ylorbr"@, "ylorrd"@, "orrd"@, "purd"@, "rdpu"@, "bupu"@,
        "gnbu"@, "pubu"@, "ylgnbu"@, "pubugn"@, "bugn"@, "ylgn"@, "coolwarm"@, "rdbu"@,
        "seismic"@, "piyg"@, "prgn"@, "brbg"@, "puor"@, "rdgy"@, "rdylbu"@, "rdylgn"@,
        "spectral"@, "twilight"@, "hsv"@, "jet"@, "turbo"@, "tab20"@, "tab20b"@,
        "tab20c"@, "paired"@, "set1"@, "set2"@, "set3"@, "pastel1"@, "pastel2"@,
        "accent"@, "dark2"@, "cubehelix"@,
    ]
}

/// Calls `ratatui_plt::theme::theme_names` and copies the names it returns,
/// in order; the list it returns is the literal list of six presets in that
/// function's source.
#[verifier::external_body]
pub(crate) fn theme_names() -> (v: Vec<String>)
    ensures
        string_views(v@) == theme_names_spec(),
{
    ratatui_plt::theme::theme_names().iter().map(|s| s.to_string()).collect()
}

/// Calls `ratatui_plt::colormap::colormap_names` and copies the names it
/// returns, in order; the list it returns is the literal list of 55 colormaps
/// in that function's source.
#[verifier::external_body]
pub(crate) fn colormap_names() -> (v: Vec<String>)
    ensures
        string_views(v@) == colormap_names_spec(),
{
    ratatui_plt::colormap::colormap_names().iter().map(|s| s.to_string()).collect()
}

/// The first position of `x` in `names`, if it occurs.
pub open spec fn position_of(names: Seq<Seq<char>>, x: Seq<char>) -> Option<nat> {
    if exists|i: int| 0 <= i < names.len() && names[i] == x {
        Some(
            (choose|i: int|
                0 <= i < names.len() && names[i] == x && forall|k: int| 0 <= k < i ==> names[k] != x) as nat,
        )
    } else {
        None
    }
}

/// Finds the first position of `x` in `names`.
pub(crate) fn find_name(names: &Vec<String>, x: &str) -> (r: Option<usize>)
    ensures
        r matches Some(i) ==> position_of(string_views(names@), x@) == Some(i as nat) && i < names@.len(),
        r is None ==> position_of(string_views(names@), x@) is None,
{
    let target = String::from_str(x);
    let ghost views = string_views(names@);
    let mut i: usize = 0;
    while i < names.len()
        invariant
            views == string_views(names@),
            i <= names@.len(),
            target@ == x@,
            forall|k: int| 0 <= k < i ==> views[k] != x@,
        decreases names@.len() - i,
    {
        if names[i] == target {
            proof {
                assert(views[i as int] == x@);
                let c = choose|j: int|
                    0 <= j < views.len() && views[j] == x@ && forall|k: int| 0 <= k < j ==> views[k] != x@;
                if c < i {
                    assert(views[c] != x@);
                }
                if c > i {
                    assert(views[i as int] == x@);
                }
            }
            return Some(i);
        }
        i = i + 1;
    }
    None
}

/// A selection among a fixed list of names: the selected position and the
/// name found there.
pub struct NamedSelection {
    pub name: Seq<char>,
    pub index: nat,
}

impl NamedSelection {
    /// The position is within the list and the name is the one there.
    pub open spec fn wf_in(self, names: Seq<Seq<char>>) -> bool {
        &&& self.index < names.len()
        &&& self.name == names[self.index as int]
    }
}

/// The selection that naming `name` gives: its position in the list, or the
/// first entry when it is not listed.
pub open spec fn selection_named(names: Seq<Seq<char>>, name: Seq<char>) -> NamedSelection {
    let i: nat = match position_of(names, name) {
        Some(i) => i,
        None => 0,
    };
    NamedSelection { name: names[i as int], index: i }
}

/// The next entry, wrapping from the last to the first.
pub open spec fn selection_next(names: Seq<Seq<char>>, s: NamedSelection) -> NamedSelection {
    let i = ((s.index + 1) % names.len()) as nat;
    NamedSelection { name: names[i as int], index: i }
}

/// The previous entry, wrapping from the first to the last.
pub open spec fn selection_prev(names: Seq<Seq<char>>, s: NamedSelection) -> NamedSelection {
    let i = ((s.index + names.len() - 1) % names.len() as int) as nat;
    NamedSelection { name: names[i as int], index: i }
}

/// The selection after asking for `name`: that entry if it is listed,
/// otherwise the selection as it was.
pub open spec fn selection_set(names: Seq<Seq<char>>, s: NamedSelection, name: Seq<char>) -> NamedSelection {
    match position_of(names, name) {
        Some(i) => NamedSelection { name, index: i },
        None => s,
    }
}

/// Cycling/serializable wrapper around ratatui-plt named theme presets.
pub struct ThemeState {
    name: String,
    index: usize,
}

impl View for ThemeState {
    type V = NamedSelection;

    closed spec fn view(&self) -> NamedSelection {
        NamedSelection { name: self.name@, index: self.index as nat }
    }
}

impl ThemeState {
    /// The selection of the preset called `name`, or of the first preset
    /// ("dark") when no preset has that name.
    pub fn new(name: &str) -> (t: ThemeState)
        ensures
            t@ == selection_named(theme_names_spec(), name@),
            t@.wf_in(theme_names_spec()),
    {
        let names = theme_names();
        assert(string_views(names@).len() == names@.len());
        assert(names@.len() == 6);
        let index = match find_name(&names, name) {
            Some(i) => i,
            None => 0,
        };
        let t = ThemeState { name: names[index].clone(), index };
        assert(string_views(names@)[index as int] == names@[index as int]@);
        t
    }

    /// The selected preset's name.
    pub fn name(&self) -> (s: &str)
        ensures
            s@ == self@.name,
    {
        self.name.as_str()
    }

    /// Selects the next preset, after the last the first.
    pub fn next(&mut self)
        requires
            old(self)@.wf_in(theme_names_spec()),
        ensures
            final(self)@ == selection_next(theme_names_spec(), old(self)@),
            final(self)@.wf_in(theme_names_spec()),
    {
        let names = theme_names();
        assert(string_views(names@).len() == names@.len());
        assert(names@.len() == 6);
        self.index = (self.index + 1) % names.len();
        self.name = names[self.index].clone();
        assert(string_views(names@)[self.index as int] == names@[self.index as int]@);
    }

    /// Selects the previous preset, before the first the last.
    pub fn prev(&mut self)
        requires
            old(self)@.wf_in(theme_names_spec()),
        ensures
            final(self)@ == selection_prev(theme_names_spec(), old(self)@),
            final(self)@.wf_in(theme_names_spec()),
    {
        let names = theme_names();
        assert(string_views(names@).len() == names@.len());
        assert(names@.len() == 6);
        self.index = (self.index + names.len() - 1) % names.len();
        self.name = names[self.index].clone();
        assert(string_views(names@)[self.index as int] == names@[self.index as int]@);
    }

    /// Selects the preset called `name`; an unknown name changes nothing.
    pub fn set(&mut self, name: &str)
        requires
            old(self)@.wf_in(theme_names_spec()),
        ensures
            final(self)@ == selection_set(theme_names_spec(), old(self)@, name@),
            final(self)@.wf_in(theme_names_spec()),
    {
        let names = theme_names();
        match find_name(&names, name) {
            Some(idx) => {
                self.index = idx;
                self.name = String::from_str(name);
                proof {
                    let v = string_views(names@);
                    let c = choose|i: int|
                        0 <= i < v.len() && v[i] == name@ && forall|k: int| 0 <= k < i ==> v[k] != name@;
                    assert(c == idx);
                }
            },
            None => {},
        }
    }

    /// The selected preset's position in the list.
    pub fn index(&self) -> (i: usize)
        ensures
            i == self@.index,
    {
        self.index
    }
}

impl Default for ThemeState {
    /// The "dark" preset.
    fn default() -> (t: ThemeState)
        ensures
            t@ == selection_named(theme_names_spec(), "dark"@),
            t@.wf_in(theme_names_spec()),
    {
        Self::new("dark")
    }
}

/// Cycling/serializable wrapper around the ratatui-plt colormap registry.
pub struct ColormapState {
    name: String,
    index: usize,
}

impl View for ColormapState {
    type V = NamedSelection;

    closed spec fn view(&self) -> NamedSelection {
        NamedSelection { name: self.name@, index: self.index as nat }
    }
}

impl ColormapState {
    /// The selection of the colormap called `name`, or of the first colormap
    /// ("viridis") when none has that name.
    pub fn new(name: &str) -> (t: ColormapState)
        ensures
            t@ == selection_named(colormap_names_spec(), name@),
            t@.wf_in(colormap_names_spec()),
    {
        let names = colormap_names();
        assert(string_views(names@).len() == names@.len());
        assert(names@.len() == 55);
        let index = match find_name(&names, name) {
            Some(i) => i,
            None => 0,
        };
        let t = ColormapState { name: names[index].clone(), index };
        assert(string_views(names@)[index as int] == names@[index as int]@);
        t
    }

    /// The selected colormap's name.
    pub fn name(&self) -> (s: &str)
        ensures
            s@ == self@.name,
    {
        self.name.as_str()
    }

    /// Selects the next colormap, after the last the first.
    pub fn next(&mut self)
        requires
            old(self)@.wf_in(colormap_names_spec()),
        ensures
            final(self)@ == selection_next(colormap_names_spec(), old(self)@),
            final(self)@.wf_in(colormap_names_spec()),
    {
        let names = colormap_names();
        assert(string_views(names@).len() == names@.len());
        assert(names@.len() == 55);
        self.index = (self.index + 1) % names.len();
        self.name = names[self.index].clone();
        assert(string_views(names@)[self.index as int] == names@[self.index as int]@);
    }

    /// Selects the previous colormap, before the first the last.
    pub fn prev(&mut self)
        requires
            old(self)@.wf_in(colormap_names_spec()),
        ensures
            final(self)@ == selection_prev(colormap_names_spec(), old(self)@),
            final(self)@.wf_in(colormap_names_spec()),
    {
        let names = colormap_names();
        assert(string_views(names@).len() == names@.len());
        assert(names@.len() == 55);
        self.index = (self.index + names.len() - 1) % names.len();
        self.name = names[self.index].clone();
        assert(string_views(names@)[self.index as int] == names@[self.index as int]@);
    }

    /// Selects the colormap called `name`; an unknown name changes nothing.
    pub fn set(&mut self, name: &str)
        requires
            old(self)@.wf_in(colormap_names_spec()),
        ensures
            final(self)@ == selection_set(colormap_names_spec(), old(self)@, name@),
            final(self)@.wf_in(colormap_names_spec()),
    {
        let names = colormap_names();
        match find_name(&names, name) {
            Some(idx) => {
                self.index = idx;
                self.name = String::from_str(name);
                proof {
                    let v = string_views(names@);
                    let c = choose|i: int|
                        0 <= i < v.len() && v[i] == name@ && forall|k: int| 0 <= k < i ==> v[k] != name@;
                    assert(c == idx);
                }
            },
            None => {},
        }
    }

    /// The selected colormap's position in the list.
    pub fn index(&self) -> (i: usize)
        ensures
            i == self@.index,
    {
        self.index
    }

    /// The names of all colormaps, in the registry's order.
    pub fn all_names() -> (v: Vec<String>)
        ensures
            string_views(v@) == colormap_names_spec(),
    {
        colormap_names()
    }
}

impl Default for ColormapState {
    /// The "viridis" colormap.
    fn default() -> (t: ColormapState)
        ensures
            t@ == selection_named(colormap_names_spec(), "viridis"@),
            t@.wf_in(colormap_names_spec()),
    {
        Self::new("viridis")
    }
}

pub(crate) proof fn lemma_mod_step(i: int, n: int)
    requires
        0 <= i < n,
    ensures
        ((i + 1) % n + n - 1) % n == i,
        ((i + n - 1) % n + 1) % n == i,
{
    if i + 1 < n {
        assert((i + 1) % n == i + 1) by (nonlinear_arith)
            requires 0 <= i + 1 < n;
        assert((i + 1 + n - 1) % n == i) by (nonlinear_arith)
            requires 0 <= i < n;
    } else {
        assert((i + 1) % n == 0) by (nonlinear_arith)
            requires i + 1 == n, n > 0;
        assert((0 + n - 1) % n == i) by (nonlinear_arith)
            requires i == n - 1, n > 0;
    }
    if i > 0 {
        assert((i + n - 1) % n == i - 1) by (nonlinear_arith)
            requires 0 < i < n;
        assert((i - 1 + 1) % n == i) by (nonlinear_arith)
            requires 0 <= i < n;
    } else {
        assert((i + n - 1) % n == n - 1) by (nonlinear_arith)
            requires i == 0, n > 0;
        assert((n - 1 + 1) % n == 0) by (nonlinear_arith)
            requires n > 0;
    }
}

/// Going to the next entry and back returns to the same selection.
pub proof fn lemma_next_then_prev(names: Seq<Seq<char>>, s: NamedSelection)
    requires
        s.wf_in(names),
    ensures
        selection_prev(names, selection_next(names, s)) == s,
{
    lemma_mod_step(s.index as int, names.len() as int);
}

/// Going to the previous entry and forward returns to the same selection.
pub proof fn lemma_prev_then_next(names: Seq<Seq<char>>, s: NamedSelection)
    requires
        s.wf_in(names),
    ensures
        selection_next(names, selection_prev(names, s)) == s,
{
    lemma_mod_step(s.index as int, names.len() as int);
}

/// Asking for a name that is listed selects it; asking for one that is not
/// changes nothing.
pub proof fn lemma_set_selects(names: Seq<Seq<char>>, s: NamedSelection, name: Seq<char>)
    ensures
        position_of(names, name) is Some ==> selection_set(names, s, name).name == name,
        position_of(names, name) is None ==> selection_set(names, s, name) == s,
{
}

/// Heatmap normalization modes available across density and phase-space tabs.
#[derive(Clone, Copy, Debug, Default, PartialEq, Eq, Structural)]
pub enum NormMode {
    #[default]
    Linear,
    Log,
    Sqrt,
    Asinh,
}

/// The mode after `next`.
pub open spec fn norm_next(m: NormMode) -> NormMode {
    match m {
        NormMode::Linear => NormMode::Log,
        NormMode::Log => NormMode::Sqrt,
        NormMode::Sqrt => NormMode::Asinh,
        NormMode::Asinh => NormMode::Linear,
    }
}

/// The tag shown in title bars for a mode.
pub open spec fn norm_tag(m: NormMode) -> Seq<char> {
    match m {
        NormMode::Linear => ""@,
        NormMode::Log => " [log]"@,
        NormMode::Sqrt => " [sqrt]"@,
        NormMode::Asinh => " [asinh]"@,
    }
}

impl NormMode {
    /// Cycle to the next normalization mode.
    pub fn next(self) -> (m: NormMode)
        ensures
            m == norm_next(self),
    {
        match self {
            NormMode::Linear => NormMode::Log,
            NormMode::Log => NormMode::Sqrt,
            NormMode::Sqrt => NormMode::Asinh,
            NormMode::Asinh => NormMode::Linear,
        }
    }

    /// Short tag for display in title bars.
    pub fn tag(self) -> (s: &'static str)
        ensures
            s@ == norm_tag(self),
    {
        match self {
            NormMode::Linear => "",
            NormMode::Log => " [log]",
            NormMode::Sqrt => " [sqrt]",
            NormMode::Asinh => " [asinh]",
        }
    }
}

/// Four steps of `next` return to the same mode.
pub proof fn lemma_norm_cycle(m: NormMode)
    ensures
        norm_next(norm_next(norm_next(norm_next(m)))) == m,
{
}

} // verus!
