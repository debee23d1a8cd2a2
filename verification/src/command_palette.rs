//! Modal command input (`:` key) for quick actions.
//!
//! Supports commands like:
//!   :jump 50.0    — jump to simulation time
//!   :export csv   — trigger export
//!   :cmap viridis — change colormap
//!   :theme dark   — change theme
//!   :q            — quit

use vstd::prelude::*;

use crate::float_text::{is_float_chars, is_float_text};
use crate::keys::{KeyCode, KeyEvent};
use crate::text::{chars_of, lower_text, string_of, trim, trim_chars};

verus! {

/// A command typed into the palette.
///
/// `JumpToTime` carries the argument's text, which reads as a number by the
/// grammar of `f64::from_str` (see `float_text`); turning it into a time is
/// left to whoever executes the command.
#[derive(Debug, Clone)]
pub enum Command {
    JumpToTime(String),
    Export(String),
    SetColormap(String),
    SetTheme(String),
    Quit,
}

/// A command with its text arguments as character sequences.
pub enum CommandView {
    JumpToTime(Seq<char>),
    Export(Seq<char>),
    SetColormap(Seq<char>),
    SetTheme(Seq<char>),
    Quit,
}

impl View for Command {
    type V = CommandView;

    open spec fn view(&self) -> CommandView {
        match self {
            Command::JumpToTime(s) => CommandView::JumpToTime(s@),
            Command::Export(s) => CommandView::Export(s@),
            Command::SetColormap(s) => CommandView::SetColormap(s@),
            Command::SetTheme(s) => CommandView::SetTheme(s@),
            Command::Quit => CommandView::Quit,
        }
    }
}

/// The text before the first space (all of it if there is none).
pub open spec fn first_word(s: Seq<char>) -> Seq<char> {
    if exists|i: int| 0 <= i < s.len() && s[i] == ' ' {
        s.subrange(0, first_space(s))
    } else {
        s
    }
}

/// The index of the first space in `s`.
pub open spec fn first_space(s: Seq<char>) -> int
    recommends
        exists|i: int| 0 <= i < s.len() && s[i] == ' ',
{
    choose|i: int| 0 <= i < s.len() && s[i] == ' ' && forall|k: int| 0 <= k < i ==> s[k] != ' '
}

/// The text after the first space, if there is a space.
pub open spec fn rest_after_space(s: Seq<char>) -> Option<Seq<char>> {
    if exists|i: int| 0 <= i < s.len() && s[i] == ' ' {
        Some(s.subrange(first_space(s) + 1, s.len() as int))
    } else {
        None
    }
}

/// What a palette input means: the input is trimmed, its first word (taken
/// in lowercase) names the command, and the rest, trimmed, is its argument.
/// A jump needs an argument that reads as a number.
pub open spec fn parse_command_spec(input: Seq<char>) -> Option<CommandView> {
    let t = trim(input);
    if t.len() == 0 {
        None
    } else {
        let cmd = lower_text(first_word(t));
        let arg: Option<Seq<char>> = match rest_after_space(t) {
            Some(r) => Some(trim(r)),
            None => None,
        };
        if cmd == "q"@ || cmd == "quit"@ || cmd == "exit"@ {
            Some(CommandView::Quit)
        } else if cmd == "jump"@ || cmd == "goto"@ || cmd == "t"@ {
            match arg {
                Some(a) => if is_float_text(a) {
                    Some(CommandView::JumpToTime(a))
                } else {
                    None
                },
                None => None,
            }
        } else if cmd == "export"@ || cmd == "e"@ {
            match arg {
                Some(a) => Some(CommandView::Export(a)),
                None => Some(CommandView::Export("csv"@)),
            }
        } else if cmd == "cmap"@ || cmd == "colormap"@ {
            match arg {
                Some(a) => Some(CommandView::SetColormap(a)),
                None => None,
            }
        } else if cmd == "theme"@ {
            match arg {
                Some(a) => Some(CommandView::SetTheme(a)),
                None => None,
            }
        } else {
            None
        }
    }
}

/// The view of an optional command.
pub open spec fn opt_command_view(c: Option<Command>) -> Option<CommandView> {
    match c {
        Some(c) => Some(c@),
        None => None,
    }
}

/// Whether `s` equals the literal `lit`.
fn is_word(s: &String, lit: &str) -> (b: bool)
    ensures
        b == (s@ == lit@),
{
    let l = String::from_str(lit);
    *s == l
}

/// Reads a palette input as a command.
pub fn parse_command(input: &str) -> (r: Option<Command>)
    ensures
        opt_command_view(r) == parse_command_spec(input@),
{
    let chars = chars_of(input);
    let t = trim_chars(chars.as_slice());
    if t.len() == 0 {
        return None;
    }
    // Split at the first space.
    let mut i: usize = 0;
    while i < t.len() && t[i] != ' '
        invariant
            i <= t@.len(),
            forall|k: int| 0 <= k < i ==> t@[k] != ' ',
        decreases t@.len() - i,
    {
        i = i + 1;
    }
    let ghost ts = t@;
    proof {
        if i < t.len() {
            assert(exists|j: int| 0 <= j < ts.len() && ts[j] == ' ') by {
                assert(ts[i as int] == ' ');
            }
            let f = first_space(ts);
            // The first space is unique.
            if f < i {
                assert(ts[f] != ' ');
            }
            if f > i {
                assert(ts[i as int] == ' ');
            }
            assert(f == i);
        } else {
            assert(!(exists|j: int| 0 <= j < ts.len() && ts[j] == ' '));
        }
    }
    let mut word: Vec<char> = Vec::new();
    let mut k: usize = 0;
    while k < i
        invariant
            i <= t@.len(),
            k <= i,
            word@ == t@.subrange(0, k as int),
        decreases i - k,
    {
        word.push(t[k]);
        k = k + 1;
        assert(word@ =~= t@.subrange(0, k as int));
    }
    proof {
        if i == t.len() {
            assert(word@ =~= t@);
        }
    }
    let arg: Option<Vec<char>> = if i < t.len() {
        let mut rest: Vec<char> = Vec::new();
        let mut k: usize = i + 1;
        while k < t.len()
            invariant
                i < t@.len(),
                i + 1 <= k <= t@.len(),
                rest@ == t@.subrange(i + 1, k as int),
            decreases t@.len() - k,
        {
            rest.push(t[k]);
            k = k + 1;
            assert(rest@ =~= t@.subrange(i + 1, k as int));
        }
        Some(trim_chars(rest.as_slice()))
    } else {
        None
    };
    let word_s = string_of(word.as_slice());
    let cmd = word_s.as_str().to_lowercase();
    if is_word(&cmd, "q") || is_word(&cmd, "quit") || is_word(&cmd, "exit") {
        Some(Command::Quit)
    } else if is_word(&cmd, "jump") || is_word(&cmd, "goto") || is_word(&cmd, "t") {
        match arg {
            Some(a) => if is_float_chars(a.as_slice()) {
                Some(Command::JumpToTime(string_of(a.as_slice())))
            } else {
                None
            },
            None => None,
        }
    } else if is_word(&cmd, "export") || is_word(&cmd, "e") {
        match arg {
            Some(a) => Some(Command::Export(string_of(a.as_slice()))),
            None => Some(Command::Export(String::from_str("csv"))),
        }
    } else if is_word(&cmd, "cmap") || is_word(&cmd, "colormap") {
        match arg {
            Some(a) => Some(Command::SetColormap(string_of(a.as_slice()))),
            None => None,
        }
    } else if is_word(&cmd, "theme") {
        match arg {
            Some(a) => Some(Command::SetTheme(string_of(a.as_slice()))),
            None => None,
        }
    } else {
        None
    }
}

} // verus!

verus! {

/// The command palette: an input line with a cursor, shown at the bottom of
/// the screen while a command is typed. The cursor is a count of characters,
/// not of bytes: it stands between two characters of any text, so every edit
/// is defined on text outside ASCII too, and on ASCII text the two counts
/// agree.
#[derive(Debug)]
pub struct CommandPalette {
    pub visible: bool,
    input: Vec<char>,
    cursor: usize,
}

/// What a palette is: shown or not, the typed text, and the cursor's
/// position as the number of characters (not bytes) before it.
pub struct CommandPaletteView {
    pub visible: bool,
    pub input: Seq<char>,
    pub cursor: nat,
}

impl View for CommandPalette {
    type V = CommandPaletteView;

    closed spec fn view(&self) -> CommandPaletteView {
        CommandPaletteView { visible: self.visible, input: self.input@, cursor: self.cursor as nat }
    }
}

/// What a palette answers to a key: `Err(())` when it closes without running
/// anything, `Ok(Some(..))` when a command was submitted, `Ok(None)` otherwise.
pub open spec fn key_result_view(r: Result<Option<Command>, ()>) -> Result<Option<CommandView>, ()> {
    match r {
        Ok(c) => Ok(opt_command_view(c)),
        Err(()) => Err(()),
    }
}

/// A hidden, empty palette.
pub open spec fn closed_palette() -> CommandPaletteView {
    CommandPaletteView { visible: false, input: Seq::empty(), cursor: 0 }
}

/// The palette after a key other than Esc and Enter.
pub open spec fn palette_edited(p: CommandPaletteView, code: KeyCode) -> CommandPaletteView {
    match code {
        KeyCode::Backspace => if p.cursor > 0 {
            CommandPaletteView {
                visible: p.visible,
                input: p.input.remove(p.cursor - 1),
                cursor: (p.cursor - 1) as nat,
            }
        } else {
            p
        },
        KeyCode::Left => if p.cursor > 0 {
            CommandPaletteView { cursor: (p.cursor - 1) as nat, ..p }
        } else {
            p
        },
        KeyCode::Right => if p.cursor < p.input.len() {
            CommandPaletteView { cursor: p.cursor + 1, ..p }
        } else {
            p
        },
        KeyCode::Char(c) => if p.input.len() < usize::MAX {
            CommandPaletteView { visible: p.visible, input: p.input.insert(p.cursor as int, c), cursor: p.cursor + 1 }
        } else {
            p
        },
        _ => p,
    }
}

impl CommandPaletteView {
    /// The cursor stands within the text or just after it.
    pub open spec fn wf(self) -> bool {
        self.cursor <= self.input.len()
    }
}

impl CommandPalette {
    /// A hidden, empty palette.
    pub fn new() -> (p: CommandPalette)
        ensures
            p@ == closed_palette(),
    {
        let p = CommandPalette { visible: false, input: Vec::new(), cursor: 0 };
        assert(p@.input =~= Seq::<char>::empty());
        p
    }

    /// Whether it shows.
    pub fn is_visible(&self) -> (b: bool)
        ensures
            b == self@.visible,
    {
        self.visible
    }

    /// The typed text.
    pub fn input(&self) -> (s: String)
        ensures
            s@ == self@.input,
    {
        string_of(self.input.as_slice())
    }

    /// The line shown while the palette is open: a colon, the input, and a
    /// bar where the cursor stands.
    pub fn display_line(&self) -> (s: String)
        requires
            self@.wf(),
        ensures
            s@ == seq![':'] + self@.input.subrange(0, self@.cursor as int) + seq!['│']
                + self@.input.subrange(self@.cursor as int, self@.input.len() as int),
    {
        let mut v: Vec<char> = Vec::new();
        v.push(':');
        let mut i: usize = 0;
        while i < self.cursor
            invariant
                self@.wf(),
                i <= self.cursor,
                v@ == seq![':'] + self@.input.subrange(0, i as int),
            decreases self.cursor - i,
        {
            v.push(self.input[i]);
            i = i + 1;
            assert(v@ =~= seq![':'] + self@.input.subrange(0, i as int));
        }
        v.push('│');
        let ghost head = v@;
        let n = self.input.len();
        while i < n
            invariant
                self@.wf(),
                n == self@.input.len(),
                self.cursor <= i <= n,
                v@ == head + self@.input.subrange(self.cursor as int, i as int),
            decreases n - i,
        {
            v.push(self.input[i]);
            i = i + 1;
            assert(v@ =~= head + self@.input.subrange(self.cursor as int, i as int));
        }
        string_of(v.as_slice())
    }

    /// The cursor's position, in characters (not bytes).
    pub fn cursor(&self) -> (c: usize)
        ensures
            c == self@.cursor,
    {
        self.cursor
    }

    /// Shows the palette with an empty input.
    pub fn open(&mut self)
        ensures
            final(self)@ == (CommandPaletteView { visible: true, input: Seq::empty(), cursor: 0 }),
    {
        self.visible = true;
        self.input = Vec::new();
        self.cursor = 0;
        assert(self@.input =~= Seq::<char>::empty());
    }

    /// Open with pre-filled text (e.g. "jump " for `/` shortcut); the cursor
    /// goes after the text, at its number of characters.
    pub fn open_with(&mut self, prefix: &str)
        ensures
            final(self)@ == (CommandPaletteView { visible: true, input: prefix@, cursor: prefix@.len() }),
    {
        self.visible = true;
        self.input = chars_of(prefix);
        self.cursor = self.input.len();
    }

    /// Hides the palette and clears its input.
    pub fn close(&mut self)
        ensures
            final(self)@ == closed_palette(),
    {
        self.visible = false;
        self.input = Vec::new();
        self.cursor = 0;
        assert(self@.input =~= Seq::<char>::empty());
    }

    /// Handle a key event while the palette is open.
    /// Esc closes it without running anything (`Err(())`); Enter closes it
    /// and submits the input read as a command; Backspace, Left, Right and
    /// characters edit the input at the cursor; other keys do nothing.
    pub fn handle_key(&mut self, key: KeyEvent) -> (r: Result<Option<Command>, ()>)
        requires
            old(self)@.wf(),
        ensures
            final(self)@.wf(),
            key.code == KeyCode::Esc ==> r == Err::<Option<Command>, ()>(()) && final(self)@ == closed_palette(),
            key.code == KeyCode::Enter ==> key_result_view(r) == Ok::<Option<CommandView>, ()>(parse_command_spec(old(self)@.input))
                && final(self)@ == closed_palette(),
            key.code != KeyCode::Esc && key.code != KeyCode::Enter ==> (r matches Ok(None))
                && final(self)@ == palette_edited(old(self)@, key.code),
    {
        match key.code {
            KeyCode::Esc => {
                self.close();
                return Err(());
            },
            KeyCode::Enter => {
                let text = string_of(self.input.as_slice());
                let cmd = parse_command(text.as_str());
                self.close();
                return Ok(cmd);
            },
            KeyCode::Backspace => {
                if self.cursor > 0 {
                    self.cursor = self.cursor - 1;
                    self.input.remove(self.cursor);
                }
            },
            KeyCode::Left => {
                if self.cursor > 0 {
                    self.cursor = self.cursor - 1;
                }
            },
            KeyCode::Right => {
                if self.cursor < self.input.len() {
                    self.cursor = self.cursor + 1;
                }
            },
            KeyCode::Char(c) => {
                // A buffer of `usize::MAX` characters takes no more.
                if self.input.len() < usize::MAX {
                    self.input.insert(self.cursor, c);
                    self.cursor = self.cursor + 1;
                }
            },
            _ => {},
        }
        Ok(None)
    }
}

impl Default for CommandPalette {
    /// A hidden, empty palette.
    fn default() -> (p: CommandPalette)
        ensures
            p@ == closed_palette(),
    {
        CommandPalette::new()
    }
}

/// Typing a character and then pressing Backspace leaves the palette as it
/// was.
pub proof fn lemma_char_then_backspace(p: CommandPaletteView, c: char)
    requires
        p.wf(),
        p.input.len() < usize::MAX,
    ensures
        palette_edited(palette_edited(p, KeyCode::Char(c)), KeyCode::Backspace) == p,
{
    let q = palette_edited(p, KeyCode::Char(c));
    assert(q.input.remove(p.cursor as int) =~= p.input);
}

/// Moving the cursor left and then right returns it where it was, when
/// there was room on the left.
pub proof fn lemma_left_then_right(p: CommandPaletteView)
    requires
        p.wf(),
        p.cursor > 0,
    ensures
        palette_edited(palette_edited(p, KeyCode::Left), KeyCode::Right) == p,
{
}

/// Every edit keeps the cursor within the text.
pub proof fn lemma_edit_keeps_wf(p: CommandPaletteView, code: KeyCode)
    requires
        p.wf(),
    ensures
        palette_edited(p, code).wf(),
{
}

} // verus!
