//! How the Setup tab shows a configuration's TOML source: the numbered
//! non-comment lines with keys and values told apart, the notes that its
//! comments hold, and the scroll position in the panel's title.

use vstd::prelude::*;

use crate::text::{chars_of, decimal, decimal_string, string_of, string_views, trim, trim_chars};

verus! {

/// Whether a text starts with the character.
pub open spec fn starts_with(s: Seq<char>, c: char) -> bool {
    s.len() > 0 && s[0] == c
}

/// A text without its leading `#` characters.
pub open spec fn drop_hashes(s: Seq<char>) -> Seq<char>
    decreases s.len(),
{
    if starts_with(s, '#') {
        drop_hashes(s.drop_first())
    } else {
        s
    }
}

/// The text of a comment line (already trimmed): the leading `#`s and one
/// space after them removed.
pub open spec fn comment_text(t: Seq<char>) -> Seq<char> {
    let d = drop_hashes(t);
    if starts_with(d, ' ') {
        d.drop_first()
    } else {
        d
    }
}

/// A line of the notes panel.
#[derive(Debug, Clone, PartialEq, Eq)]
pub enum Note {
    /// The first non-empty comment, shown as the title.
    Title(String),
    /// An empty line.
    Blank,
    /// Another comment.
    Text(String),
}

/// A note with its text as a view.
pub enum NoteView {
    Title(Seq<char>),
    Blank,
    Text(Seq<char>),
}

impl View for Note {
    type V = NoteView;

    open spec fn view(&self) -> NoteView {
        match self {
            Note::Title(t) => NoteView::Title(t@),
            Note::Blank => NoteView::Blank,
            Note::Text(t) => NoteView::Text(t@),
        }
    }
}

/// The views of notes.
pub open spec fn note_views(v: Seq<Note>) -> Seq<NoteView> {
    v.map_values(|n: Note| n@)
}

/// The notes gathered so far: whether the title is still to come, whether
/// the last line was a section header, and the notes.
pub struct NotesState {
    pub first: bool,
    pub after_section: bool,
    pub notes: Seq<NoteView>,
}

/// The notes after one more line of the source. A section header (`[` but
/// not `[[`) is remembered; another non-comment line is skipped. A comment
/// right after a section header is preceded by an empty line; the first
/// non-empty comment is the title; empty comments before the title are
/// skipped, later ones shown as empty lines.
pub open spec fn notes_step(s: NotesState, line: Seq<char>) -> NotesState {
    let t = trim(line);
    if starts_with(t, '[') && !(t.len() >= 2 && t[1] == '[') {
        NotesState { after_section: true, ..s }
    } else if !starts_with(t, '#') {
        NotesState { after_section: false, ..s }
    } else {
        let text = comment_text(t);
        let pre = if s.after_section { s.notes.push(NoteView::Blank) } else { s.notes };
        if s.first && text.len() > 0 {
            NotesState { first: false, after_section: false, notes: pre.push(NoteView::Title(text)) }
        } else if text.len() == 0 {
            NotesState { first: s.first, after_section: false, notes: if s.first { pre } else { pre.push(NoteView::Blank) } }
        } else {
            NotesState { first: s.first, after_section: false, notes: pre.push(NoteView::Text(text)) }
        }
    }
}

/// The notes of a source, line by line from the top.
pub open spec fn notes_of(lines: Seq<Seq<char>>) -> NotesState
    decreases lines.len(),
{
    if lines.len() == 0 {
        NotesState { first: true, after_section: false, notes: Seq::empty() }
    } else {
        notes_step(notes_of(lines.drop_last()), lines.last())
    }
}

fn starts_with_char(v: &Vec<char>, c: char) -> (b: bool)
    ensures
        b == starts_with(v@, c),
{
    v.len() > 0 && v[0] == c
}

/// The text of a trimmed comment line: see `comment_text`.
fn comment_text_exec(t: &Vec<char>) -> (r: Vec<char>)
    ensures
        r@ == comment_text(t@),
{
    let mut i: usize = 0;
    assert(t@.skip(0) =~= t@);
    while i < t.len() && t[i] == '#'
        invariant
            i <= t@.len(),
            drop_hashes(t@) == drop_hashes(t@.skip(i as int)),
        decreases t@.len() - i,
    {
        proof {
            assert(t@.skip(i as int).drop_first() =~= t@.skip(i as int + 1));
        }
        i = i + 1;
    }
    let ghost d = t@.skip(i as int);
    assert(drop_hashes(d) == d);
    let start = if i < t.len() && t[i] == ' ' { i + 1 } else { i };
    let mut r: Vec<char> = Vec::new();
    let mut k: usize = start;
    while k < t.len()
        invariant
            start <= k <= t@.len(),
            r@ == t@.subrange(start as int, k as int),
        decreases t@.len() - k,
    {
        r.push(t[k]);
        k = k + 1;
        assert(r@ =~= t@.subrange(start as int, k as int));
    }
    proof {
        if starts_with(d, ' ') {
            assert(r@ =~= d.drop_first());
        } else {
            assert(r@ =~= d);
        }
    }
    r
}

/// The notes that a source's comments hold: see `notes_step`.
pub fn comment_notes(lines: &Vec<String>) -> (r: Vec<Note>)
    ensures
        note_views(r@) == notes_of(string_views(lines@)).notes,
{
    let ghost ls = string_views(lines@);
    let mut first = true;
    let mut after_section = false;
    let mut out: Vec<Note> = Vec::new();
    let n = lines.len();
    let mut i: usize = 0;
    assert(ls.take(0) =~= Seq::<Seq<char>>::empty());
    assert(note_views(out@) =~= Seq::<NoteView>::empty());
    while i < n
        invariant
            n == lines@.len(),
            ls == string_views(lines@),
            i <= n,
            notes_of(ls.take(i as int)) == (NotesState { first, after_section, notes: note_views(out@) }),
        decreases n - i,
    {
        proof {
            assert(ls.take(i as int + 1).drop_last() =~= ls.take(i as int));
            assert(ls.take(i as int + 1).last() == lines@[i as int]@);
        }
        let t = trim_chars(chars_of(lines[i].as_str()).as_slice());
        let ghost before = note_views(out@);
        if starts_with_char(&t, '[') && !(t.len() >= 2 && t[1] == '[') {
            after_section = true;
        } else if !starts_with_char(&t, '#') {
            after_section = false;
        } else {
            let text = comment_text_exec(&t);
            if after_section {
                out.push(Note::Blank);
            }
            let ghost pre = note_views(out@);
            proof {
                assert(pre =~= (if after_section { before.push(NoteView::Blank) } else { before }));
            }
            after_section = false;
            if first && text.len() > 0 {
                out.push(Note::Title(string_of(text.as_slice())));
                first = false;
                assert(note_views(out@) =~= pre.push(NoteView::Title(comment_text(t@))));
            } else if text.len() == 0 {
                if !first {
                    out.push(Note::Blank);
                    assert(note_views(out@) =~= pre.push(NoteView::Blank));
                }
            } else {
                out.push(Note::Text(string_of(text.as_slice())));
                assert(note_views(out@) =~= pre.push(NoteView::Text(comment_text(t@))));
            }
        }
        i = i + 1;
    }
    assert(ls.take(n as int) =~= ls);
    out
}

/// Whether `s` holds " = " at position `i`.
pub open spec fn eq_at(s: Seq<char>, i: int) -> bool {
    0 <= i && i + 3 <= s.len() && s[i] == ' ' && s[i + 1] == '=' && s[i + 2] == ' '
}

/// Whether `i` is the position of the first " = " in `s`.
pub open spec fn is_first_eq(s: Seq<char>, i: int) -> bool {
    eq_at(s, i) && forall|k: int| 0 <= k < i ==> !eq_at(s, k)
}

/// The position of the first " = " in a line, if any.
#[verifier::opaque]
pub open spec fn first_eq(s: Seq<char>) -> Option<int> {
    if exists|i: int| is_first_eq(s, i) {
        Some(choose|i: int| is_first_eq(s, i))
    } else {
        None
    }
}

/// A numbered line of the TOML panel: a section header, a key and its value
/// (split at the first " = "), or another line.
#[derive(Debug, Clone, PartialEq, Eq)]
pub enum SourceRow {
    Section(usize, String),
    Pair(usize, String, String),
    Plain(usize, String),
}

/// A source row with its texts as views.
pub enum SourceRowView {
    Section(nat, Seq<char>),
    Pair(nat, Seq<char>, Seq<char>),
    Plain(nat, Seq<char>),
}

impl View for SourceRow {
    type V = SourceRowView;

    open spec fn view(&self) -> SourceRowView {
        match self {
            SourceRow::Section(n, t) => SourceRowView::Section(*n as nat, t@),
            SourceRow::Pair(n, k, v) => SourceRowView::Pair(*n as nat, k@, v@),
            SourceRow::Plain(n, t) => SourceRowView::Plain(*n as nat, t@),
        }
    }
}

/// The views of source rows.
pub open spec fn row_views(v: Seq<SourceRow>) -> Seq<SourceRowView> {
    v.map_values(|r: SourceRow| r@)
}

/// The row of the line numbered `n`.
pub open spec fn row_of(n: nat, line: Seq<char>) -> SourceRowView {
    if starts_with(trim(line), '[') {
        SourceRowView::Section(n, line)
    } else {
        match first_eq(line) {
            Some(k) => SourceRowView::Pair(n, line.subrange(0, k), line.subrange(k + 3, line.len() as int)),
            None => SourceRowView::Plain(n, line),
        }
    }
}

/// The rows of a source: every line whose trimmed text is not a comment,
/// numbered from one by its place in the source.
pub open spec fn rows_of(lines: Seq<Seq<char>>) -> Seq<SourceRowView>
    decreases lines.len(),
{
    if lines.len() == 0 {
        Seq::empty()
    } else {
        let rest = rows_of(lines.drop_last());
        if starts_with(trim(lines.last()), '#') {
            rest
        } else {
            rest.push(row_of(lines.len(), lines.last()))
        }
    }
}

/// The first " = " of a line: see `first_eq`.
fn find_eq(v: &Vec<char>) -> (r: Option<usize>)
    ensures
        match r {
            Some(k) => first_eq(v@) == Some(k as int) && k + 3 <= v@.len(),
            None => first_eq(v@) is None,
        },
{
    let n = v.len();
    let mut i: usize = 0;
    while i < n && n - i >= 3
        invariant
            n == v@.len(),
            i <= n,
            forall|k: int| 0 <= k < i ==> !eq_at(v@, k),
        decreases n - i,
    {
        if v[i] == ' ' && v[i + 1] == '=' && v[i + 2] == ' ' {
            proof {
                assert(is_first_eq(v@, i as int));
                let c = choose|c: int| is_first_eq(v@, c);
                assert(is_first_eq(v@, c));
                if c < i {
                    assert(!eq_at(v@, c));
                } else if c > i {
                    assert(!eq_at(v@, i as int));
                }
                assert(c == i);
                reveal(first_eq);
                assert(first_eq(v@) == Some(i as int));
            }
            return Some(i);
        }
        i = i + 1;
    }
    proof {
        reveal(first_eq);
        assert forall|k: int| !is_first_eq(v@, k) by {
            if 0 <= k < i {
            }
        }
    }
    None
}

/// The key-value row of a line split at `k`.
fn pair_row(number: usize, line: &Vec<char>, k: usize) -> (row: SourceRow)
    requires
        k + 3 <= line@.len(),
    ensures
        row@ == SourceRowView::Pair(number as nat, line@.subrange(0, k as int), line@.subrange(k + 3, line@.len() as int)),
{
    assert(line@.len() == line.len());
    let key = string_of(&line.as_slice()[0..k]);
    let value = string_of(&line.as_slice()[k + 3..line.len()]);
    SourceRow::Pair(number, key, value)
}

/// The row of the line numbered `number`, given its characters and their
/// trimmed form.
fn row_for(number: usize, text: &String, line: &Vec<char>, t: &Vec<char>) -> (row: SourceRow)
    requires
        line@ == text@,
        t@ == trim(line@),
    ensures
        row@ == row_of(number as nat, text@),
{
    if starts_with_char(t, '[') {
        SourceRow::Section(number, text.clone())
    } else {
        match find_eq(line) {
            Some(k) => pair_row(number, line, k),
            None => SourceRow::Plain(number, text.clone()),
        }
    }
}

/// The TOML panel's rows: see `rows_of`.
pub fn source_rows(lines: &Vec<String>) -> (r: Vec<SourceRow>)
    requires
        lines@.len() < usize::MAX,
    ensures
        row_views(r@) == rows_of(string_views(lines@)),
{
    let ghost ls = string_views(lines@);
    let mut out: Vec<SourceRow> = Vec::new();
    let n = lines.len();
    let mut i: usize = 0;
    assert(ls.take(0) =~= Seq::<Seq<char>>::empty());
    assert(row_views(out@) =~= Seq::<SourceRowView>::empty());
    while i < n
        invariant
            n == lines@.len(),
            n < usize::MAX,
            ls == string_views(lines@),
            i <= n,
            row_views(out@) == rows_of(ls.take(i as int)),
        decreases n - i,
    {
        let ghost before = row_views(out@);
        proof {
            assert(ls.take(i as int + 1).drop_last() =~= ls.take(i as int));
            assert(ls.take(i as int + 1).last() == lines@[i as int]@);
        }
        let line = chars_of(lines[i].as_str());
        let t = trim_chars(line.as_slice());
        if !starts_with_char(&t, '#') {
            let row = row_for(i + 1, &lines[i], &line, &t);
            assert(row@ == row_of((i + 1) as nat, lines@[i as int]@));
            out.push(row);
            assert(row_views(out@) =~= before.push(row_of((i + 1) as nat, lines@[i as int]@)));
        } else {
            assert(row_views(out@) =~= before);
        }
        i = i + 1;
    }
    assert(ls.take(n as int) =~= ls);
    out
}

/// The TOML panel's title: the line scrolled to and the number of lines.
pub open spec fn toml_title_spec(scroll: u16, total: nat) -> Seq<char> {
    if total > 0 {
        let at = if scroll + 1 <= total { (scroll + 1) as nat } else { total };
        " TOML ["@ + decimal(at) + "/"@ + decimal(total) + "] "@
    } else {
        " TOML "@
    }
}

/// The TOML panel's title: see `toml_title_spec`.
pub fn toml_title(scroll: u16, total: usize) -> (s: String)
    ensures
        s@ == toml_title_spec(scroll, total as nat),
{
    if total > 0 {
        let at: u128 = if (scroll as u128) + 1 <= total as u128 { scroll as u128 + 1 } else { total as u128 };
        String::from_str(" TOML [")
            .concat(decimal_string(at).as_str())
            .concat("/")
            .concat(decimal_string(total as u128).as_str())
            .concat("] ")
    } else {
        String::from_str(" TOML ")
    }
}

} // verus!
