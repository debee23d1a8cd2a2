//! Which texts read as a floating-point number, by the grammar that std's
//! `f64::from_str` documents (letters in any case, no surrounding space):
//!
//! ```text
//! Float  ::= Sign? ( 'inf' | 'infinity' | 'nan' | Number )
//! Number ::= ( Digit+ | Digit+ '.' Digit* | Digit* '.' Digit+ ) Exp?
//! Exp    ::= 'e' Sign? Digit+
//! Sign   ::= [+-]
//! Digit  ::= [0-9]
//! ```

use vstd::prelude::*;

verus! {

/// A decimal digit.
pub open spec fn is_digit(c: char) -> bool {
    '0' <= c && c <= '9'
}

/// Whether `c` is the lowercase letter `l` in either case.
pub open spec fn folds_to(c: char, l: char) -> bool {
    c == l || ('A' <= c && c <= 'Z' && c as u32 + 32 == l as u32)
}

/// Whether `s` spells the lowercase word `w`, letters in either case.
pub open spec fn caseless_eq(s: Seq<char>, w: Seq<char>) -> bool {
    s.len() == w.len() && forall|i: int| 0 <= i < s.len() ==> folds_to(#[trigger] s[i], w[i])
}

/// A text without its leading sign, if it has one.
pub open spec fn unsigned(s: Seq<char>) -> Seq<char> {
    if s.len() > 0 && (s[0] == '+' || s[0] == '-') {
        s.drop_first()
    } else {
        s
    }
}

/// Digits with at most one point among them, and at least one digit: the
/// three forms of a number before its exponent.
pub open spec fn is_mantissa(m: Seq<char>) -> bool {
    &&& forall|i: int| 0 <= i < m.len() ==> is_digit(#[trigger] m[i]) || m[i] == '.'
    &&& forall|i: int, j: int| 0 <= i < j < m.len() && #[trigger] m[i] == '.' ==> #[trigger] m[j] != '.'
    &&& exists|i: int| 0 <= i < m.len() && is_digit(#[trigger] m[i])
}

/// An exponent: `e` or `E`, an optional sign, and one digit or more.
pub open spec fn is_exponent(e: Seq<char>) -> bool {
    let d = unsigned(e.drop_first());
    &&& e.len() > 0
    &&& folds_to(e[0], 'e')
    &&& d.len() > 0
    &&& forall|i: int| 0 <= i < d.len() ==> is_digit(#[trigger] d[i])
}

/// The position of the first `e` or `E` of `s` from `i` on, or its length.
pub open spec fn exp_pos(s: Seq<char>, i: int) -> int
    decreases s.len() - i,
{
    if i >= s.len() || i < 0 {
        s.len() as int
    } else if folds_to(s[i], 'e') {
        i
    } else {
        exp_pos(s, i + 1)
    }
}

/// A number: a mantissa, then an exponent if there is an `e`. A mantissa
/// holds no `e`, so the number is split at its first one.
pub open spec fn is_number(s: Seq<char>) -> bool {
    let p = exp_pos(s, 0);
    is_mantissa(s.take(p)) && (p == s.len() || is_exponent(s.skip(p)))
}

/// Whether a text reads as a floating-point number: an optional sign, then
/// `inf`, `infinity`, `nan` (in any case) or a number.
pub open spec fn is_float_text(s: Seq<char>) -> bool {
    let b = unsigned(s);
    caseless_eq(b, "inf"@) || caseless_eq(b, "infinity"@) || caseless_eq(b, "nan"@) || is_number(b)
}

fn digit_at(c: char) -> (b: bool)
    ensures
        b == is_digit(c),
{
    '0' <= c && c <= '9'
}

fn fold_eq(c: char, l: char) -> (b: bool)
    ensures
        b == folds_to(c, l),
{
    c == l || ('A' <= c && c <= 'Z' && (c as u32) + 32 == l as u32)
}

fn caseless_word(s: &[char], w: &[char]) -> (b: bool)
    ensures
        b == caseless_eq(s@, w@),
{
    if s.len() != w.len() {
        return false;
    }
    let mut i: usize = 0;
    while i < s.len()
        invariant
            s@.len() == w@.len(),
            i <= s@.len(),
            forall|k: int| 0 <= k < i ==> folds_to(#[trigger] s@[k], w@[k]),
        decreases s@.len() - i,
    {
        if !fold_eq(s[i], w[i]) {
            return false;
        }
        i = i + 1;
    }
    true
}

fn mantissa_ok(m: &[char]) -> (b: bool)
    ensures
        b == is_mantissa(m@),
{
    let mut seen_point = false;
    let mut seen_digit = false;
    let mut i: usize = 0;
    while i < m.len()
        invariant
            i <= m@.len(),
            forall|k: int| 0 <= k < i ==> is_digit(#[trigger] m@[k]) || m@[k] == '.',
            forall|k: int, j: int| 0 <= k < j < i && #[trigger] m@[k] == '.' ==> #[trigger] m@[j] != '.',
            seen_point == (exists|k: int| 0 <= k < i && #[trigger] m@[k] == '.'),
            seen_digit == (exists|k: int| 0 <= k < i && is_digit(#[trigger] m@[k])),
        decreases m@.len() - i,
    {
        let c = m[i];
        if digit_at(c) {
            seen_digit = true;
        } else if c == '.' {
            if seen_point {
                proof {
                    let k = choose|k: int| 0 <= k < i && #[trigger] m@[k] == '.';
                    assert(m@[k] == '.' && m@[i as int] == '.');
                }
                return false;
            }
            seen_point = true;
        } else {
            assert(!(is_digit(m@[i as int]) || m@[i as int] == '.'));
            return false;
        }
        i = i + 1;
    }
    seen_digit
}

fn exponent_ok(e: &[char]) -> (b: bool)
    ensures
        b == is_exponent(e@),
{
    if e.len() == 0 || !fold_eq(e[0], 'e') {
        return false;
    }
    let mut i: usize = 1;
    if i < e.len() && (e[i] == '+' || e[i] == '-') {
        i = 2;
    }
    let ghost d = unsigned(e@.drop_first());
    assert(d =~= e@.skip(i as int));
    if i >= e.len() {
        assert(d.len() == 0);
        return false;
    }
    let start = i;
    while i < e.len()
        invariant
            start <= i <= e@.len(),
            d == e@.skip(start as int),
            d == unsigned(e@.drop_first()),
            e@.len() > 0,
            folds_to(e@[0], 'e'),
            forall|k: int| start <= k < i ==> is_digit(#[trigger] e@[k]),
        decreases e@.len() - i,
    {
        if !digit_at(e[i]) {
            assert(d[i - start] == e@[i as int]);
            assert(!is_digit(d[i - start]));
            return false;
        }
        i = i + 1;
    }
    assert forall|k: int| 0 <= k < d.len() implies is_digit(#[trigger] d[k]) by {
        assert(d[k] == e@[k + start]);
    }
    true
}

proof fn lemma_exp_pos(s: Seq<char>, i: int)
    requires
        0 <= i <= s.len(),
    ensures
        i <= exp_pos(s, i) <= s.len(),
        forall|k: int| i <= k < exp_pos(s, i) ==> !folds_to(#[trigger] s[k], 'e'),
        exp_pos(s, i) < s.len() ==> folds_to(s[exp_pos(s, i)], 'e'),
    decreases s.len() - i,
{
    if i < s.len() && !folds_to(s[i], 'e') {
        lemma_exp_pos(s, i + 1);
    }
}

proof fn lemma_exp_pos_is_first(s: Seq<char>, i: int, p: int)
    requires
        0 <= i <= p <= s.len(),
        forall|k: int| i <= k < p ==> !folds_to(#[trigger] s[k], 'e'),
        p == s.len() || folds_to(s[p], 'e'),
    ensures
        exp_pos(s, i) == p,
    decreases p - i,
{
    if i < p {
        assert(!folds_to(s[i], 'e'));
        lemma_exp_pos_is_first(s, i + 1, p);
    }
}

/// Whether a text reads as a floating-point number: see `is_float_text`.
pub fn is_float_chars(s: &[char]) -> (b: bool)
    ensures
        b == is_float_text(s@),
{
    let start: usize = if s.len() > 0 && (s[0] == '+' || s[0] == '-') { 1 } else { 0 };
    let body = &s[start..s.len()];
    assert(body@ =~= unsigned(s@));
    let inf = ['i', 'n', 'f'];
    let infinity = ['i', 'n', 'f', 'i', 'n', 'i', 't', 'y'];
    let nan = ['n', 'a', 'n'];
    proof {
        reveal_strlit("inf");
        reveal_strlit("infinity");
        reveal_strlit("nan");
        assert(inf@ =~= "inf"@);
        assert(infinity@ =~= "infinity"@);
        assert(nan@ =~= "nan"@);
    }
    if caseless_word(body, &inf) || caseless_word(body, &infinity) || caseless_word(body, &nan) {
        return true;
    }
    let mut p: usize = 0;
    while p < body.len() && !fold_eq(body[p], 'e')
        invariant
            p <= body@.len(),
            forall|k: int| 0 <= k < p ==> !folds_to(#[trigger] body@[k], 'e'),
        decreases body@.len() - p,
    {
        p = p + 1;
    }
    proof {
        lemma_exp_pos_is_first(body@, 0, p as int);
    }
    let mantissa = &body[0..p];
    assert(mantissa@ =~= body@.take(p as int));
    if !mantissa_ok(mantissa) {
        return false;
    }
    if p == body.len() {
        return true;
    }
    let exponent = &body[p..body.len()];
    assert(exponent@ =~= body@.skip(p as int));
    exponent_ok(exponent)
}

} // verus!
