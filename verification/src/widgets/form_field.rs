use vstd::prelude::*;

use crate::keys::{KeyCode, KeyEvent};

verus! {

/// An editable field of a form: a text input, a dropdown or a toggle.
#[derive(Debug, Clone)]
pub enum FormField {
    TextInput {
        label: String,
        value: String,
        unit: String,
        error: Option<String>,
        focused: bool,
        editing: bool,
    },
    Dropdown {
        label: String,
        options: Vec<String>,
        selected: usize,
        focused: bool,
    },
    Toggle {
        label: String,
        value: bool,
        focused: bool,
    },
}

/// A form field with its texts as character sequences.
pub enum FormFieldView {
    TextInput {
        label: Seq<char>,
        value: Seq<char>,
        unit: Seq<char>,
        error: Option<Seq<char>>,
        focused: bool,
        editing: bool,
    },
    Dropdown {
        label: Seq<char>,
        options: Seq<Seq<char>>,
        selected: nat,
        focused: bool,
    },
    Toggle {
        label: Seq<char>,
        value: bool,
        focused: bool,
    },
}

/// The view of an optional text.
pub open spec fn opt_text(e: Option<String>) -> Option<Seq<char>> {
    match e {
        Some(s) => Some(s@),
        None => None,
    }
}

impl View for FormField {
    type V = FormFieldView;

    open spec fn view(&self) -> FormFieldView {
        match self {
            FormField::TextInput { label, value, unit, error, focused, editing } => FormFieldView::TextInput {
                label: label@,
                value: value@,
                unit: unit@,
                error: opt_text(*error),
                focused: *focused,
                editing: *editing,
            },
            FormField::Dropdown { label, options, selected, focused } => FormFieldView::Dropdown {
                label: label@,
                options: options@.map_values(|s: String| s@),
                selected: *selected as nat,
                focused: *focused,
            },
            FormField::Toggle { label, value, focused } => FormFieldView::Toggle {
                label: label@,
                value: *value,
                focused: *focused,
            },
        }
    }
}

/// The field's label.
pub open spec fn field_label(f: FormFieldView) -> Seq<char> {
    match f {
        FormFieldView::TextInput { label, .. } => label,
        FormFieldView::Dropdown { label, .. } => label,
        FormFieldView::Toggle { label, .. } => label,
    }
}

/// The field's value as text: the typed text, the selected option (empty
/// when the selection is past the options), or "true"/"false".
pub open spec fn field_value(f: FormFieldView) -> Seq<char> {
    match f {
        FormFieldView::TextInput { value, .. } => value,
        FormFieldView::Dropdown { options, selected, .. } => if selected < options.len() {
            options[selected as int]
        } else {
            Seq::empty()
        },
        FormFieldView::Toggle { value, .. } => if value { "true"@ } else { "false"@ },
    }
}

/// The field after `set_focused(v)`: leaving a text input also ends editing.
pub open spec fn field_focused(f: FormFieldView, v: bool) -> FormFieldView {
    match f {
        FormFieldView::TextInput { label, value, unit, error, editing, .. } => FormFieldView::TextInput {
            label,
            value,
            unit,
            error,
            focused: v,
            editing: if v { editing } else { false },
        },
        FormFieldView::Dropdown { label, options, selected, .. } => FormFieldView::Dropdown {
            label,
            options,
            selected,
            focused: v,
        },
        FormFieldView::Toggle { label, value, .. } => FormFieldView::Toggle { label, value, focused: v },
    }
}

/// The field after a key, and whether its value changed.
///
/// An unfocused field ignores keys. A text input toggles editing on Enter,
/// stops editing on Esc, and while editing appends a typed character or
/// drops the last one on Backspace. A dropdown moves its selection with
/// Left/`h` and Right/`l` within its options. A toggle flips on Space or
/// Enter. The answer is true exactly when the text, the selection or the
/// flag changed: Backspace on an empty text, or a move past either end of
/// the options, reports no change.
pub open spec fn field_key_step(f: FormFieldView, code: KeyCode) -> (FormFieldView, bool) {
    match f {
        FormFieldView::TextInput { label, value, unit, error, focused, editing } => {
            if !focused {
                (f, false)
            } else if code == KeyCode::Enter {
                (FormFieldView::TextInput { label, value, unit, error, focused, editing: !editing }, false)
            } else if code == KeyCode::Esc && editing {
                (FormFieldView::TextInput { label, value, unit, error, focused, editing: false }, false)
            } else if editing {
                match code {
                    KeyCode::Char(c) => (
                        FormFieldView::TextInput { label, value: value.push(c), unit, error, focused, editing },
                        true,
                    ),
                    KeyCode::Backspace => (
                        FormFieldView::TextInput {
                            label,
                            value: if value.len() > 0 { value.drop_last() } else { value },
                            unit,
                            error,
                            focused,
                            editing,
                        },
                        value.len() > 0,
                    ),
                    _ => (f, false),
                }
            } else {
                (f, false)
            }
        },
        FormFieldView::Dropdown { label, options, selected, focused } => {
            if !focused {
                (f, false)
            } else if code == KeyCode::Left || code == KeyCode::Char('h') {
                let moved: nat = if options.len() > 0 && selected > 0 { (selected - 1) as nat } else { selected };
                (FormFieldView::Dropdown { label, options, selected: moved, focused }, moved != selected)
            } else if code == KeyCode::Right || code == KeyCode::Char('l') {
                let moved: nat = if options.len() > 0 {
                    if selected + 1 < options.len() { selected + 1 } else { (options.len() - 1) as nat }
                } else {
                    selected
                };
                (FormFieldView::Dropdown { label, options, selected: moved, focused }, moved != selected)
            } else {
                (f, false)
            }
        },
        FormFieldView::Toggle { label, value, focused } => {
            if !focused {
                (f, false)
            } else if code == KeyCode::Char(' ') || code == KeyCode::Enter {
                (FormFieldView::Toggle { label, value: !value, focused }, true)
            } else {
                (f, false)
            }
        },
    }
}

impl FormField {
    /// A text input without a unit.
    pub fn text(label: &str, value: &str) -> (f: FormField)
        ensures
            f@ == (FormFieldView::TextInput {
                label: label@,
                value: value@,
                unit: Seq::empty(),
                error: None,
                focused: false,
                editing: false,
            }),
    {
        FormField::TextInput {
            label: String::from_str(label),
            value: String::from_str(value),
            unit: String::new(),
            error: None,
            focused: false,
            editing: false,
        }
    }

    /// A text input with a unit shown after the value.
    pub fn text_with_unit(label: &str, value: &str, unit: &str) -> (f: FormField)
        ensures
            f@ == (FormFieldView::TextInput {
                label: label@,
                value: value@,
                unit: unit@,
                error: None,
                focused: false,
                editing: false,
            }),
    {
        FormField::TextInput {
            label: String::from_str(label),
            value: String::from_str(value),
            unit: String::from_str(unit),
            error: None,
            focused: false,
            editing: false,
        }
    }

    /// A dropdown over `options` with `selected` chosen.
    pub fn dropdown(label: &str, options: Vec<String>, selected: usize) -> (f: FormField)
        ensures
            f@ == (FormFieldView::Dropdown {
                label: label@,
                options: options@.map_values(|s: String| s@),
                selected: selected as nat,
                focused: false,
            }),
    {
        FormField::Dropdown { label: String::from_str(label), options, selected, focused: false }
    }

    /// An on/off toggle.
    pub fn toggle(label: &str, value: bool) -> (f: FormField)
        ensures
            f@ == (FormFieldView::Toggle { label: label@, value, focused: false }),
    {
        FormField::Toggle { label: String::from_str(label), value, focused: false }
    }

    /// Gives or takes the focus; a text input that loses it stops editing.
    pub fn set_focused(&mut self, v: bool)
        ensures
            final(self)@ == field_focused(old(self)@, v),
    {
        match self {
            FormField::TextInput { focused, editing, .. } => {
                *focused = v;
                if !v {
                    *editing = false;
                }
            },
            FormField::Dropdown { focused, .. } => *focused = v,
            FormField::Toggle { focused, .. } => *focused = v,
        }
    }

    /// Sets the error shown by a text input; other fields have none.
    pub fn set_error(&mut self, err: Option<String>)
        ensures
            old(self)@ matches FormFieldView::TextInput { label, value, unit, focused, editing, .. }
                ==> final(self)@ == (FormFieldView::TextInput { label, value, unit, error: opt_text(err), focused, editing }),
            !(old(self)@ is TextInput) ==> final(self)@ == old(self)@,
    {
        if let FormField::TextInput { error, .. } = self {
            *error = err;
        }
    }

    /// Whether the field is a text input being edited.
    pub fn is_editing(&self) -> (b: bool)
        ensures
            b == (self@ matches FormFieldView::TextInput { editing, .. } && editing),
    {
        match self {
            FormField::TextInput { editing, .. } => *editing,
            _ => false,
        }
    }

    /// The field's value as text.
    pub fn value_str(&self) -> (s: String)
        ensures
            s@ == field_value(self@),
    {
        match self {
            FormField::TextInput { value, .. } => value.clone(),
            FormField::Dropdown { options, selected, .. } => {
                if *selected < options.len() {
                    options[*selected].clone()
                } else {
                    String::new()
                }
            },
            FormField::Toggle { value, .. } => if *value {
                String::from_str("true")
            } else {
                String::from_str("false")
            },
        }
    }

    /// The field's label.
    pub fn label(&self) -> (s: &str)
        ensures
            s@ == field_label(self@),
    {
        match self {
            FormField::TextInput { label, .. } => label.as_str(),
            FormField::Dropdown { label, .. } => label.as_str(),
            FormField::Toggle { label, .. } => label.as_str(),
        }
    }

    /// Handle a key event.  Returns true if the value changed.
    pub fn handle_key(&mut self, key: KeyEvent) -> (changed: bool)
        ensures
            (final(self)@, changed) == field_key_step(old(self)@, key.code),
    {
        match self {
            FormField::TextInput { value, focused, editing, .. } => {
                if !*focused {
                    return false;
                }
                if key.code == KeyCode::Enter {
                    *editing = !*editing;
                    false
                } else if key.code == KeyCode::Esc && *editing {
                    *editing = false;
                    false
                } else if *editing {
                    match key.code {
                        KeyCode::Char(c) => {
                            value.push(c);
                            true
                        },
                        KeyCode::Backspace => value.pop().is_some(),
                        _ => false,
                    }
                } else {
                    false
                }
            },
            FormField::Dropdown { options, selected, focused, .. } => {
                if !*focused {
                    return false;
                }
                match key.code {
                    KeyCode::Left | KeyCode::Char('h') => {
                        let before = *selected;
                        if options.len() > 0 {
                            *selected = selected.saturating_sub(1);
                        }
                        *selected != before
                    },
                    KeyCode::Right | KeyCode::Char('l') => {
                        let before = *selected;
                        if options.len() > 0 {
                            let last = options.len() - 1;
                            *selected = if *selected < last { *selected + 1 } else { last };
                        }
                        *selected != before
                    },
                    _ => false,
                }
            },
            FormField::Toggle { value, focused, .. } => {
                if !*focused {
                    return false;
                }
                match key.code {
                    KeyCode::Char(' ') | KeyCode::Enter => {
                        *value = !*value;
                        true
                    },
                    _ => false,
                }
            },
        }
    }
}

/// What a piece of a field's line shows, which decides how it is coloured.
#[derive(Debug, Clone, Copy, PartialEq, Eq, Structural)]
pub enum PieceKind {
    /// The label, padded to the label column.
    Label,
    /// The label of a text input that holds an error.
    ErrorLabel,
    /// The value of a text input that is not being edited.
    Value,
    /// The value of a text input being edited.
    EditedValue,
    /// The edit cursor (empty when not editing).
    Cursor,
    /// The unit after the value.
    Unit,
    /// The hint that the field is being edited.
    EditingHint,
    /// The hint that Enter starts editing.
    EditHint,
    /// The error message.
    Error,
    /// A dropdown's choice between its arrows.
    Choice,
    /// A toggle that is on.
    On,
    /// A toggle that is off.
    Off,
}

/// A piece of a field's line: what it shows and its text.
#[derive(Debug, Clone, PartialEq, Eq)]
pub struct Piece {
    pub kind: PieceKind,
    pub text: String,
}

/// The width of the label column.
pub const LABEL_WIDTH: usize = 16;

/// A text padded with spaces on the right to `w` characters (unchanged when
/// it is that long already).
pub open spec fn padded(s: Seq<char>, w: nat) -> Seq<char> {
    if s.len() < w {
        s + Seq::new((w - s.len()) as nat, |i: int| ' ')
    } else {
        s
    }
}

/// The pieces of a field's line. A text input shows its label (marked when
/// it holds an error), its value (marked while edited), the edit cursor
/// while edited, its unit when it has one, the editing hint while edited or
/// the Enter hint while focused, and its error. A dropdown shows its label
/// and the chosen option between arrows ("—" when the choice is past the
/// options); a toggle its label and ON or OFF.
pub open spec fn field_pieces(f: FormFieldView) -> Seq<(PieceKind, Seq<char>)> {
    match f {
        FormFieldView::TextInput { label, value, unit, error, focused, editing } => {
            let head = seq![
                (if error is Some { PieceKind::ErrorLabel } else { PieceKind::Label }, padded(label, LABEL_WIDTH as nat)),
                (if editing { PieceKind::EditedValue } else { PieceKind::Value }, value),
                (PieceKind::Cursor, if editing { "▎"@ } else { ""@ }),
            ];
            let with_unit = if unit.len() > 0 { head.push((PieceKind::Unit, " "@ + unit)) } else { head };
            let with_hint = if editing {
                with_unit.push((PieceKind::EditingHint, "  [editing]"@))
            } else if focused {
                with_unit.push((PieceKind::EditHint, "  [Enter to edit]"@))
            } else {
                with_unit
            };
            match error {
                Some(e) => with_hint.push((PieceKind::Error, "  ✗ "@ + e)),
                None => with_hint,
            }
        },
        FormFieldView::Dropdown { label, options, selected, .. } => seq![
            (PieceKind::Label, padded(label, LABEL_WIDTH as nat)),
            (PieceKind::Choice, "◄ "@ + (if selected < options.len() { options[selected as int] } else { "—"@ }) + " ►"@),
        ],
        FormFieldView::Toggle { label, value, .. } => seq![
            (PieceKind::Label, padded(label, LABEL_WIDTH as nat)),
            if value { (PieceKind::On, "● ON "@) } else { (PieceKind::Off, "○ OFF"@) },
        ],
    }
}

/// How a field's line is highlighted as a whole.
#[derive(Debug, Clone, Copy, PartialEq, Eq, Structural)]
pub enum Highlight {
    Editing,
    Focused,
    Plain,
}

/// A field's highlight: being edited, else focused, else none.
pub open spec fn field_highlight(f: FormFieldView) -> Highlight {
    match f {
        FormFieldView::TextInput { focused, editing, .. } => if editing {
            Highlight::Editing
        } else if focused {
            Highlight::Focused
        } else {
            Highlight::Plain
        },
        FormFieldView::Dropdown { focused, .. } => if focused {
            Highlight::Focused
        } else {
            Highlight::Plain
        },
        FormFieldView::Toggle { focused, .. } => if focused {
            Highlight::Focused
        } else {
            Highlight::Plain
        },
    }
}

/// The pieces with their texts as character sequences.
pub open spec fn pieces_view(v: Seq<Piece>) -> Seq<(PieceKind, Seq<char>)> {
    v.map_values(|p: Piece| (p.kind, p.text@))
}

/// A text padded to `w` characters: see `padded`.
pub fn pad_right(s: &str, w: usize) -> (r: String)
    ensures
        r@ == padded(s@, w as nat),
{
    let mut r = String::from_str(s);
    let n = s.unicode_len();
    let mut k: usize = n;
    while k < w
        invariant
            n == s@.len(),
            n <= k,
            k <= w || k == n,
            r@ == s@ + Seq::new((k - n) as nat, |i: int| ' '),
        decreases w - k,
    {
        r.push(' ');
        k = k + 1;
        assert(r@ =~= s@ + Seq::new((k - n) as nat, |i: int| ' '));
    }
    proof {
        if n >= w {
            assert(k == n);
            assert(r@ =~= s@);
        } else {
            assert(k == w);
        }
    }
    r
}

fn piece(kind: PieceKind, text: String) -> (p: Piece)
    ensures
        p.kind == kind,
        p.text@ == text@,
{
    Piece { kind, text }
}

impl FormField {
    /// The pieces of the field's line: see `field_pieces`.
    pub fn line_pieces(&self) -> (v: Vec<Piece>)
        ensures
            pieces_view(v@) == field_pieces(self@),
    {
        let mut v: Vec<Piece> = Vec::new();
        match self {
            FormField::TextInput { label, value, unit, error, focused, editing } => {
                let label_kind = if error.is_some() { PieceKind::ErrorLabel } else { PieceKind::Label };
                v.push(piece(label_kind, pad_right(label.as_str(), LABEL_WIDTH)));
                let value_kind = if *editing { PieceKind::EditedValue } else { PieceKind::Value };
                v.push(piece(value_kind, value.clone()));
                v.push(piece(PieceKind::Cursor, String::from_str(if *editing { "▎" } else { "" })));
                let ghost head = pieces_view(v@);
                if unit.unicode_len() > 0 {
                    v.push(piece(PieceKind::Unit, String::from_str(" ").concat(unit.as_str())));
                }
                let ghost with_unit = pieces_view(v@);
                if *editing {
                    v.push(piece(PieceKind::EditingHint, String::from_str("  [editing]")));
                } else if *focused {
                    v.push(piece(PieceKind::EditHint, String::from_str("  [Enter to edit]")));
                }
                let ghost with_hint = pieces_view(v@);
                match error {
                    Some(e) => {
                        v.push(piece(PieceKind::Error, String::from_str("  ✗ ").concat(e.as_str())));
                    },
                    None => {},
                }
                proof {
                    assert(head =~= seq![
                        (label_kind, padded(label@, LABEL_WIDTH as nat)),
                        (value_kind, value@),
                        (PieceKind::Cursor, if *editing { "▎"@ } else { ""@ }),
                    ]);
                    if unit@.len() > 0 {
                        assert(with_unit =~= head.push((PieceKind::Unit, " "@ + unit@)));
                    } else {
                        assert(with_unit =~= head);
                    }
                    if *editing {
                        assert(with_hint =~= with_unit.push((PieceKind::EditingHint, "  [editing]"@)));
                    } else if *focused {
                        assert(with_hint =~= with_unit.push((PieceKind::EditHint, "  [Enter to edit]"@)));
                    } else {
                        assert(with_hint =~= with_unit);
                    }
                    match error {
                        Some(e) => assert(pieces_view(v@) =~= with_hint.push((PieceKind::Error, "  ✗ "@ + e@))),
                        None => assert(pieces_view(v@) =~= with_hint),
                    }
                }
            },
            FormField::Dropdown { label, options, selected, .. } => {
                v.push(piece(PieceKind::Label, pad_right(label.as_str(), LABEL_WIDTH)));
                let choice = if *selected < options.len() {
                    options[*selected].as_str()
                } else {
                    "—"
                };
                v.push(piece(PieceKind::Choice, String::from_str("◄ ").concat(choice).concat(" ►")));
                proof {
                    assert(pieces_view(v@) =~= field_pieces(self@));
                }
            },
            FormField::Toggle { label, value, .. } => {
                v.push(piece(PieceKind::Label, pad_right(label.as_str(), LABEL_WIDTH)));
                if *value {
                    v.push(piece(PieceKind::On, String::from_str("● ON ")));
                } else {
                    v.push(piece(PieceKind::Off, String::from_str("○ OFF")));
                }
                proof {
                    assert(pieces_view(v@) =~= field_pieces(self@));
                }
            },
        }
        v
    }

    /// How the field's line is highlighted: see `field_highlight`.
    pub fn highlight(&self) -> (h: Highlight)
        ensures
            h == field_highlight(self@),
    {
        match self {
            FormField::TextInput { focused, editing, .. } => if *editing {
                Highlight::Editing
            } else if *focused {
                Highlight::Focused
            } else {
                Highlight::Plain
            },
            FormField::Dropdown { focused, .. } => if *focused {
                Highlight::Focused
            } else {
                Highlight::Plain
            },
            FormField::Toggle { focused, .. } => if *focused {
                Highlight::Focused
            } else {
                Highlight::Plain
            },
        }
    }
}

/// What a field holds as its value: a text input's text, a dropdown's
/// selection, a toggle's flag.
pub open spec fn field_content(f: FormFieldView) -> (Seq<char>, nat, bool) {
    match f {
        FormFieldView::TextInput { value, .. } => (value, 0, false),
        FormFieldView::Dropdown { selected, .. } => (Seq::empty(), selected, false),
        FormFieldView::Toggle { value, .. } => (Seq::empty(), 0, value),
    }
}

/// A key reports a change exactly when it changes what the field holds.
pub proof fn lemma_changed_iff_value_changed(f: FormFieldView, code: KeyCode)
    ensures
        field_key_step(f, code).1 <==> field_content(field_key_step(f, code).0) != field_content(f),
{
    if let FormFieldView::TextInput { value, .. } = f {
        if value.len() > 0 {
            assert(value.drop_last().len() != value.len());
        }
        if let KeyCode::Char(c) = code {
            assert(value.push(c).len() != value.len());
        }
    }
}

/// A focused field that loses the focus is no longer being edited.
pub proof fn lemma_unfocus_ends_editing(f: FormFieldView)
    ensures
        !(field_focused(f, false) matches FormFieldView::TextInput { editing, .. } && editing),
{
}

/// Typing a character into an edited text input and deleting it restores
/// the value.
pub proof fn lemma_type_then_delete(f: FormFieldView, c: char)
    requires
        f matches FormFieldView::TextInput { focused, editing, .. } && focused && editing,
    ensures
        field_key_step(field_key_step(f, KeyCode::Char(c)).0, KeyCode::Backspace).0 == f,
{
    if let FormFieldView::TextInput { value, .. } = f {
        assert(value.push(c).drop_last() =~= value);
    }
}

/// Flipping a focused toggle twice restores it.
pub proof fn lemma_toggle_twice(f: FormFieldView)
    requires
        f is Toggle,
    ensures
        field_key_step(field_key_step(f, KeyCode::Enter).0, KeyCode::Enter).0 == f,
{
}

/// A dropdown whose selection is among its options keeps it there whatever
/// key arrives.
pub proof fn lemma_dropdown_stays_in_range(f: FormFieldView, code: KeyCode)
    requires
        f matches FormFieldView::Dropdown { options, selected, .. } && selected < options.len(),
    ensures
        field_key_step(f, code).0 matches FormFieldView::Dropdown { options, selected, .. } && selected < options.len(),
{
}

} // verus!
