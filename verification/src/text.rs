//! Characters and strings: the std behaviour that the interaction logic relies
//! on, and the text operations it performs on sequences of characters.

use vstd::prelude::*;
use vstd::string::*;

verus! {

/// Whether a character has the Unicode `White_Space` property, the property
/// that `char::is_whitespace` tests: the controls U+0009 to U+000D, the space,
/// U+0085, the no-break space U+00A0, U+1680, U+2000 to U+200A, the line and
/// paragraph separators U+2028 and U+2029, U+202F, U+205F and U+3000.
pub open spec fn white_space(c: char) -> bool {
    let u = c as u32;
    ||| 0x09 <= u <= 0x0D
    ||| u == 0x20
    ||| u == 0x85
    ||| u == 0xA0
    ||| u == 0x1680
    ||| 0x2000 <= u <= 0x200A
    ||| u == 0x2028
    ||| u == 0x2029
    ||| u == 0x202F
    ||| u == 0x205F
    ||| u == 0x3000
}

/// A text whose characters are all ASCII.
pub open spec fn all_ascii(s: Seq<char>) -> bool {
    forall|i: int| 0 <= i < s.len() ==> (#[trigger] s[i] as u32) < 128
}

/// An ASCII character in lowercase: `A` to `Z` become `a` to `z`, other
/// characters stay.
pub open spec fn ascii_lower(c: char) -> char {
    if 'A' <= c && c <= 'Z' {
        ((c as u32) + 32) as char
    } else {
        c
    }
}

/// The lowercase form of a string as `str::to_lowercase` computes it, by the
/// Unicode `Lowercase` mapping.
pub uninterp spec fn lowercase(s: Seq<char>) -> Seq<char>;

/// What `str::to_lowercase` gives for a text: for an ASCII text, `A` to `Z`
/// turned into `a` to `z`; for any other, the Unicode mapping `lowercase`.
pub open spec fn lower_text(s: Seq<char>) -> Seq<char> {
    if all_ascii(s) {
        s.map_values(|c: char| ascii_lower(c))
    } else {
        lowercase(s)
    }
}

/// std's `char::is_whitespace`: true exactly for the characters with the
/// Unicode `White_Space` property, listed in `white_space`.
pub assume_specification[ char::is_whitespace ](c: char) -> (r: bool)
    ensures
        r == white_space(c),
;

/// std's `String::push`: appends the character at the end of the string.
pub assume_specification[ String::push ](s: &mut String, ch: char)
    ensures
        final(s)@ == old(s)@.push(ch),
;

/// std's `String::pop`: removes and returns the last character, or returns
/// `None` and leaves an empty string as it is.
pub assume_specification[ String::pop ](s: &mut String) -> (r: Option<char>)
    ensures
        old(s)@.len() == 0 ==> r is None && final(s)@ == old(s)@,
        old(s)@.len() > 0 ==> r == Some(old(s)@.last()) && final(s)@ == old(s)@.drop_last(),
;

/// std's `str::to_lowercase`: the string mapped to lowercase. Of the Unicode
/// mapping, which is left to the name `lowercase`, only the ASCII part is
/// stated: an ASCII string has `A` to `Z` turned into `a` to `z` and every
/// other character kept.
pub assume_specification[ str::to_lowercase ](s: &str) -> (r: String)
    ensures
        r@ == lowercase(s@),
        all_ascii(s@) ==> r@ == s@.map_values(|c: char| ascii_lower(c)),
;

/// The characters of a string, in order.
pub fn chars_of(s: &str) -> (v: Vec<char>)
    ensures
        v@ == s@,
{
    let n = s.unicode_len();
    let mut v: Vec<char> = Vec::new();
    let mut i: usize = 0;
    while i < n
        invariant
            n == s@.len(),
            i <= n,
            v@ == s@.subrange(0, i as int),
        decreases n - i,
    {
        let c = s.get_char(i);
        v.push(c);
        i = i + 1;
        assert(v@ =~= s@.subrange(0, i as int));
    }
    assert(v@ =~= s@);
    v
}

/// A string made of the given characters.
pub fn string_of(v: &[char]) -> (s: String)
    ensures
        s@ == v@,
{
    let mut s = String::new();
    let mut i: usize = 0;
    while i < v.len()
        invariant
            i <= v@.len(),
            s@ == v@.subrange(0, i as int),
        decreases v@.len() - i,
    {
        s.push(v[i]);
        i = i + 1;
        assert(s@ =~= v@.subrange(0, i as int));
    }
    assert(s@ =~= v@);
    s
}

/// The sequence without its leading whitespace.
pub open spec fn trim_start(s: Seq<char>) -> Seq<char>
    decreases s.len(),
{
    if s.len() > 0 && white_space(s[0]) {
        trim_start(s.drop_first())
    } else {
        s
    }
}

/// The sequence without its trailing whitespace.
pub open spec fn trim_end(s: Seq<char>) -> Seq<char>
    decreases s.len(),
{
    if s.len() > 0 && white_space(s.last()) {
        trim_end(s.drop_last())
    } else {
        s
    }
}

/// The sequence without leading and trailing whitespace, as `str::trim` gives it.
pub open spec fn trim(s: Seq<char>) -> Seq<char> {
    trim_end(trim_start(s))
}

proof fn lemma_trim_start_at(s: Seq<char>, i: int)
    requires
        0 <= i <= s.len(),
        forall|k: int| 0 <= k < i ==> white_space(#[trigger] s[k]),
        i == s.len() || !white_space(s[i]),
    ensures
        trim_start(s) == s.subrange(i, s.len() as int),
    decreases i,
{
    if i == 0 {
        assert(s.subrange(0, s.len() as int) =~= s);
    } else {
        assert(white_space(s[0]));
        let t = s.drop_first();
        assert forall|k: int| 0 <= k < i - 1 implies white_space(#[trigger] t[k]) by {
            assert(t[k] == s[k + 1]);
        }
        if i - 1 < t.len() {
            assert(t[i - 1] == s[i]);
        }
        lemma_trim_start_at(t, i - 1);
        assert(t.subrange(i - 1, t.len() as int) =~= s.subrange(i, s.len() as int));
    }
}

proof fn lemma_trim_end_at(s: Seq<char>, j: int)
    requires
        0 <= j <= s.len(),
        forall|k: int| j <= k < s.len() ==> white_space(#[trigger] s[k]),
        j == 0 || !white_space(s[j - 1]),
    ensures
        trim_end(s) == s.subrange(0, j),
    decreases s.len() - j,
{
    if j == s.len() {
        assert(s.subrange(0, j) =~= s);
        if s.len() > 0 {
            assert(s.last() == s[j - 1]);
        }
    } else {
        assert(white_space(s.last()));
        let t = s.drop_last();
        assert forall|k: int| j <= k < t.len() implies white_space(#[trigger] t[k]) by {
            assert(t[k] == s[k]);
        }
        if j > 0 {
            assert(t[j - 1] == s[j - 1]);
        }
        lemma_trim_end_at(t, j);
        assert(t.subrange(0, j) =~= s.subrange(0, j));
    }
}

/// The characters without leading and trailing whitespace.
pub fn trim_chars(v: &[char]) -> (r: Vec<char>)
    ensures
        r@ == trim(v@),
{
    let n = v.len();
    let mut i: usize = 0;
    while i < n && v[i].is_whitespace()
        invariant
            n == v@.len(),
            i <= n,
            forall|k: int| 0 <= k < i ==> white_space(#[trigger] v@[k]),
        decreases n - i,
    {
        i = i + 1;
    }
    proof {
        lemma_trim_start_at(v@, i as int);
    }
    let mut j: usize = n;
    while j > i && v[j - 1].is_whitespace()
        invariant
            n == v@.len(),
            i <= j <= n,
            forall|k: int| j <= k < n ==> white_space(#[trigger] v@[k]),
        decreases j - i,
    {
        j = j - 1;
    }
    let ghost t = v@.subrange(i as int, n as int);
    proof {
        assert forall|k: int| (j - i) as int <= k < t.len() implies white_space(#[trigger] t[k]) by {
            assert(t[k] == v@[k + i]);
        }
        if j > i {
            assert(t[(j - i) as int - 1] == v@[j - 1]);
        }
        lemma_trim_end_at(t, (j - i) as int);
    }
    let mut r: Vec<char> = Vec::new();
    let mut k: usize = i;
    while k < j
        invariant
            n == v@.len(),
            i <= k <= j <= n,
            r@ == v@.subrange(i as int, k as int),
        decreases j - k,
    {
        r.push(v[k]);
        k = k + 1;
        assert(r@ =~= v@.subrange(i as int, k as int));
    }
    assert(r@ =~= t.subrange(0, (j - i) as int));
    r
}

} // verus!

verus! {

/// Whether two strings are equal.
pub fn str_eq(a: &str, b: &str) -> (r: bool)
    ensures
        r == (a@ == b@),
{
    let sa = String::from_str(a);
    let sb = String::from_str(b);
    sa == sb
}

} // verus!

verus! {

/// Whether `s` holds a `/`.
pub open spec fn has_slash(s: Seq<char>) -> bool {
    exists|i: int| 0 <= i < s.len() && s[i] == '/'
}

/// The index of the last `/` in `s`.
pub open spec fn last_slash(s: Seq<char>) -> int
    recommends
        has_slash(s),
{
    choose|i: int| 0 <= i < s.len() && s[i] == '/' && forall|k: int| i < k < s.len() ==> s[k] != '/'
}

/// The last component of a `/`-separated path, as `rsplit('/').next()` gives it.
pub open spec fn file_name(s: Seq<char>) -> Seq<char> {
    if has_slash(s) {
        s.subrange(last_slash(s) + 1, s.len() as int)
    } else {
        s
    }
}

/// The last component of a `/`-separated path.
pub fn file_name_of(path: &str) -> (r: String)
    ensures
        r@ == file_name(path@),
{
    let v = chars_of(path);
    let n = v.len();
    let mut j: usize = n;
    while j > 0 && v[j - 1] != '/'
        invariant
            n == v@.len(),
            j <= n,
            forall|k: int| j <= k < n ==> v@[k] != '/',
        decreases j,
    {
        j = j - 1;
    }
    let ghost s = v@;
    proof {
        if j > 0 {
            assert(s[j - 1] == '/');
            assert(has_slash(s));
            let l = last_slash(s);
            if l < j - 1 {
                assert(s[j - 1] == '/');
            }
            if l > j - 1 {
                assert(s[l] != '/');
            }
            assert(l == j - 1);
        } else {
            assert(!has_slash(s));
        }
    }
    let mut r: Vec<char> = Vec::new();
    let mut k: usize = j;
    while k < n
        invariant
            n == v@.len(),
            j <= k <= n,
            r@ == v@.subrange(j as int, k as int),
        decreases n - k,
    {
        r.push(v[k]);
        k = k + 1;
        assert(r@ =~= v@.subrange(j as int, k as int));
    }
    proof {
        if j == 0 {
            assert(r@ =~= s);
        }
    }
    string_of(r.as_slice())
}

/// `s` without the suffix `suffix`, if it ends with it.
pub open spec fn strip_suffix(s: Seq<char>, suffix: Seq<char>) -> Option<Seq<char>> {
    if suffix.len() <= s.len() && s.subrange(s.len() - suffix.len(), s.len() as int) == suffix {
        Some(s.subrange(0, s.len() - suffix.len()))
    } else {
        None
    }
}

/// Removes a suffix, as `str::strip_suffix` does.
pub fn strip_suffix_of(s: &str, suffix: &str) -> (r: Option<String>)
    ensures
        opt_chars(r) == strip_suffix(s@, suffix@),
{
    let v = chars_of(s);
    let w = chars_of(suffix);
    if w.len() > v.len() {
        return None;
    }
    let vl = v.len();
    let start = vl - w.len();
    let mut i: usize = 0;
    while i < w.len()
        invariant
            vl == v@.len(),
            v@ == s@,
            w@ == suffix@,
            w@.len() <= v@.len(),
            start == v@.len() - w@.len(),
            i <= w@.len(),
            forall|k: int| 0 <= k < i ==> v@[start + k] == w@[k],
        decreases w@.len() - i,
    {
        assert(start + i < v@.len());
        if v[start + i] != w[i] {
            proof {
                assert(v@.subrange(start as int, v@.len() as int)[i as int] != w@[i as int]);
            }
            return None;
        }
        i = i + 1;
    }
    assert(v@.subrange(start as int, v@.len() as int) =~= w@);
    let mut r: Vec<char> = Vec::new();
    let mut k: usize = 0;
    while k < start
        invariant
            v@ == s@,
            start <= v@.len(),
            k <= start,
            r@ == v@.subrange(0, k as int),
        decreases start - k,
    {
        r.push(v[k]);
        k = k + 1;
        assert(r@ =~= v@.subrange(0, k as int));
    }
    Some(string_of(r.as_slice()))
}

/// The view of an optional string.
pub open spec fn opt_chars(s: Option<String>) -> Option<Seq<char>> {
    match s {
        Some(s) => Some(s@),
        None => None,
    }
}

} // verus!

verus! {

/// The pieces of a text between its newlines, in order: one more piece than
/// there are newlines, the last one empty when the text ends with a newline.
pub open spec fn newline_pieces(s: Seq<char>) -> Seq<Seq<char>>
    decreases s.len(),
{
    if s.len() == 0 {
        seq![Seq::empty()]
    } else {
        let rest = newline_pieces(s.drop_last());
        if s.last() == '\n' {
            rest.push(Seq::empty())
        } else {
            rest.update(rest.len() - 1, rest.last().push(s.last()))
        }
    }
}

/// A line without the carriage return that ends it, if any.
pub open spec fn without_cr(l: Seq<char>) -> Seq<char> {
    if l.len() > 0 && l.last() == '\r' {
        l.drop_last()
    } else {
        l
    }
}

/// The lines of a text as `str::lines` gives them: split at each `\n`, a
/// `\r` right before it dropped, and no empty line after a final newline.
pub open spec fn lines_of(s: Seq<char>) -> Seq<Seq<char>> {
    let p = newline_pieces(s);
    let q = if p.last().len() == 0 { p.drop_last() } else { p };
    q.map_values(|l: Seq<char>| without_cr(l))
}

proof fn lemma_newline_pieces_nonempty(s: Seq<char>)
    ensures
        newline_pieces(s).len() >= 1,
    decreases s.len(),
{
    if s.len() > 0 {
        lemma_newline_pieces_nonempty(s.drop_last());
    }
}

/// The views of a sequence of strings.
pub open spec fn string_views(v: Seq<String>) -> Seq<Seq<char>> {
    v.map_values(|s: String| s@)
}

/// The lines of a text: see `lines_of`.
pub fn lines(text: &str) -> (r: Vec<String>)
    ensures
        string_views(r@) == lines_of(text@),
{
    let v = chars_of(text);
    let n = v.len();
    let mut done: Vec<String> = Vec::new();
    let mut cur: Vec<char> = Vec::new();
    let mut i: usize = 0;
    proof {
        assert(v@.take(0) =~= Seq::<char>::empty());
    }
    while i < n
        invariant
            n == v@.len(),
            v@ == text@,
            i <= n,
            newline_pieces(v@.take(i as int)).len() >= 1,
            string_views(done@) == newline_pieces(v@.take(i as int)).drop_last().map_values(|l: Seq<char>| without_cr(l)),
            cur@ == newline_pieces(v@.take(i as int)).last(),
        decreases n - i,
    {
        let c = v[i];
        let ghost before = v@.take(i as int);
        let ghost p0 = newline_pieces(before);
        proof {
            assert(v@.take(i as int + 1).drop_last() =~= before);
            assert(v@.take(i as int + 1).last() == c);
            lemma_newline_pieces_nonempty(v@.take(i as int + 1));
        }
        if c == '\n' {
            let line = if cur.len() > 0 && cur[cur.len() - 1] == '\r' {
                string_of(&cur.as_slice()[0..cur.len() - 1])
            } else {
                string_of(cur.as_slice())
            };
            proof {
                if cur@.len() > 0 && cur@.last() == '\r' {
                    assert(cur@.subrange(0, cur@.len() - 1) =~= cur@.drop_last());
                }
            }
            let ghost d0 = string_views(done@);
            done.push(line);
            cur = Vec::new();
            proof {
                let p1 = newline_pieces(v@.take(i as int + 1));
                assert(p1 == p0.push(Seq::<char>::empty()));
                assert(p1.drop_last() =~= p0);
                assert(p0 =~= p0.drop_last().push(p0.last()));
                assert(string_views(done@) =~= d0.push(without_cr(p0.last())));
                assert(p0.map_values(|l: Seq<char>| without_cr(l)) =~= p0.drop_last().map_values(|l: Seq<char>| without_cr(l)).push(without_cr(p0.last())));
                assert(cur@ =~= p1.last());
            }
        } else {
            cur.push(c);
            proof {
                let p1 = newline_pieces(v@.take(i as int + 1));
                assert(p1 == p0.update(p0.len() - 1, p0.last().push(c)));
                assert(p1.drop_last() =~= p0.drop_last());
            }
        }
        i = i + 1;
    }
    proof {
        assert(v@.take(n as int) =~= v@);
    }
    let ghost p = newline_pieces(text@);
    if cur.len() > 0 {
        let line = if cur[cur.len() - 1] == '\r' {
            string_of(&cur.as_slice()[0..cur.len() - 1])
        } else {
            string_of(cur.as_slice())
        };
        proof {
            if cur@.last() == '\r' {
                assert(cur@.subrange(0, cur@.len() - 1) =~= cur@.drop_last());
            }
        }
        let ghost d0 = string_views(done@);
        done.push(line);
        proof {
            assert(string_views(done@) =~= d0.push(without_cr(p.last())));
            assert(p =~= p.drop_last().push(p.last()));
            assert(p.map_values(|l: Seq<char>| without_cr(l)) =~= p.drop_last().map_values(|l: Seq<char>| without_cr(l)).push(without_cr(p.last())));
        }
    }
    done
}

/// Whether a line holds more than whitespace.
pub open spec fn non_blank(l: Seq<char>) -> bool {
    trim(l).len() > 0
}

/// The lines of a text that hold more than whitespace, in order.
pub fn non_blank_lines(text: &str) -> (r: Vec<String>)
    ensures
        string_views(r@) == lines_of(text@).filter(|l: Seq<char>| non_blank(l)),
{
    let all = lines(text);
    let ghost ls = lines_of(text@);
    let ghost pred = |l: Seq<char>| non_blank(l);
    let mut out: Vec<String> = Vec::new();
    let n = all.len();
    let mut i: usize = 0;
    proof {
        assert(string_views(all@).len() == all@.len());
    }
    while i < n
        invariant
            n == all@.len(),
            string_views(all@) == ls,
            pred == (|l: Seq<char>| non_blank(l)),
            i <= n,
            string_views(out@) == ls.take(i as int).filter(pred),
        decreases n - i,
    {
        let line = &all[i];
        let t = trim_chars(chars_of(line.as_str()).as_slice());
        proof {
            assert(ls[i as int] == all@[i as int]@);
            assert(ls.take(i as int + 1).drop_last() =~= ls.take(i as int));
            assert(ls.take(i as int + 1).last() == ls[i as int]);
            reveal(Seq::filter);
        }
        let ghost before = string_views(out@);
        if t.len() > 0 {
            out.push(line.clone());
            assert(string_views(out@) =~= before.push(ls[i as int]));
        } else {
            assert(string_views(out@) =~= before);
        }
        i = i + 1;
    }
    assert(ls.take(n as int) =~= ls);
    out
}

} // verus!

verus! {

/// The decimal digit `d`.
pub open spec fn digit(d: nat) -> char {
    if d == 0 { '0' } else if d == 1 { '1' } else if d == 2 { '2' } else if d == 3 { '3' } else if d == 4 { '4' }
    else if d == 5 { '5' } else if d == 6 { '6' } else if d == 7 { '7' } else if d == 8 { '8' } else { '9' }
}

/// The decimal numeral of `n`, without leading zeros.
pub open spec fn decimal(n: nat) -> Seq<char>
    decreases n,
{
    if n < 10 {
        seq![digit(n)]
    } else {
        decimal(n / 10).push(digit(n % 10))
    }
}

/// The character of the decimal digit `d`.
pub fn digit_char(d: u128) -> (c: char)
    requires
        d < 10,
    ensures
        c == digit(d as nat),
{
    match d {
        0 => '0',
        1 => '1',
        2 => '2',
        3 => '3',
        4 => '4',
        5 => '5',
        6 => '6',
        7 => '7',
        8 => '8',
        _ => '9',
    }
}

/// The decimal numeral of `n`: see `decimal`.
pub fn decimal_string(n: u128) -> (s: String)
    ensures
        s@ == decimal(n as nat),
    decreases n,
{
    if n < 10 {
        let mut s = String::new();
        s.push(digit_char(n));
        assert(s@ =~= seq![digit(n as nat)]);
        s
    } else {
        let mut s = decimal_string(n / 10);
        s.push(digit_char(n % 10));
        s
    }
}

} // verus!
