//! The configuration files offered for loading: the `.toml` files of a
//! directory listing, sorted by path.

use vstd::prelude::*;

use crate::text::{chars_of, file_name, file_name_of, opt_chars, string_views, strip_suffix, strip_suffix_of};

verus! {

/// Whether a path names a TOML file: its file name is a non-empty stem
/// followed by the extension ".toml".
pub open spec fn is_toml_file(path: Seq<char>) -> bool {
    match strip_suffix(file_name(path), ".toml"@) {
        Some(stem) => stem.len() > 0,
        None => false,
    }
}

/// Whether a path names a TOML file: see `is_toml_file`.
pub fn has_toml_extension(path: &str) -> (b: bool)
    ensures
        b == is_toml_file(path@),
{
    let f = file_name_of(path);
    match strip_suffix_of(f.as_str(), ".toml") {
        Some(stem) => stem.unicode_len() > 0,
        None => false,
    }
}

/// Whether `a` comes no later than `b` in the order of strings: character
/// by character by code point, a prefix before any longer text.
pub open spec fn lex_le(a: Seq<char>, b: Seq<char>) -> bool
    decreases a.len(),
{
    if a.len() == 0 {
        true
    } else if b.len() == 0 {
        false
    } else if a[0] != b[0] {
        a[0] < b[0]
    } else {
        lex_le(a.drop_first(), b.drop_first())
    }
}

/// Any two texts are ordered one way or the other.
pub proof fn lemma_lex_total(a: Seq<char>, b: Seq<char>)
    ensures
        lex_le(a, b) || lex_le(b, a),
    decreases a.len(),
{
    if a.len() > 0 && b.len() > 0 {
        if a[0] == b[0] {
            lemma_lex_total(a.drop_first(), b.drop_first());
        } else {
        }
    }
}

/// The order is transitive.
pub proof fn lemma_lex_trans(a: Seq<char>, b: Seq<char>, c: Seq<char>)
    requires
        lex_le(a, b),
        lex_le(b, c),
    ensures
        lex_le(a, c),
    decreases a.len(),
{
    if a.len() > 0 && b.len() > 0 && c.len() > 0 && a[0] == b[0] && b[0] == c[0] {
        lemma_lex_trans(a.drop_first(), b.drop_first(), c.drop_first());
    }
}

/// Two texts ordered both ways are equal.
pub proof fn lemma_lex_antisymmetric(a: Seq<char>, b: Seq<char>)
    requires
        lex_le(a, b),
        lex_le(b, a),
    ensures
        a == b,
    decreases a.len(),
{
    if a.len() > 0 && b.len() > 0 {
        if a[0] == b[0] {
            lemma_lex_antisymmetric(a.drop_first(), b.drop_first());
            assert(a =~= seq![a[0]] + a.drop_first());
            assert(b =~= seq![b[0]] + b.drop_first());
        } else {
        }
    } else {
        assert(a =~= b);
    }
}

/// Every text comes no later than itself.
pub proof fn lemma_lex_refl(a: Seq<char>)
    ensures
        lex_le(a, a),
    decreases a.len(),
{
    if a.len() > 0 {
        lemma_lex_refl(a.drop_first());
    }
}

/// Whether `a` comes no later than `b`: see `lex_le`.
pub fn text_le(a: &str, b: &str) -> (r: bool)
    ensures
        r == lex_le(a@, b@),
{
    let x = chars_of(a);
    let y = chars_of(b);
    let mut i: usize = 0;
    assert(a@.skip(0) =~= a@ && b@.skip(0) =~= b@);
    while i < x.len() && i < y.len() && x[i] == y[i]
        invariant
            x@ == a@,
            y@ == b@,
            i <= x@.len(),
            i <= y@.len(),
            lex_le(a@, b@) == lex_le(a@.skip(i as int), b@.skip(i as int)),
        decreases x@.len() - i,
    {
        proof {
            assert(a@.skip(i as int).drop_first() =~= a@.skip(i as int + 1));
            assert(b@.skip(i as int).drop_first() =~= b@.skip(i as int + 1));
        }
        i = i + 1;
    }
    if i == x.len() {
        true
    } else if i == y.len() {
        false
    } else {
        x[i] < y[i]
    }
}

/// The texts are in order.
pub open spec fn lex_sorted(s: Seq<Seq<char>>) -> bool {
    forall|i: int, j: int| 0 <= i < j < s.len() ==> lex_le(#[trigger] s[i], #[trigger] s[j])
}

/// How often a text occurs among the texts that pass a test: as often as
/// among all texts when it passes, never otherwise.
proof fn lemma_filter_count(s: Seq<Seq<char>>, f: spec_fn(Seq<char>) -> bool, x: Seq<char>)
    ensures
        s.filter(f).to_multiset().count(x) == (if f(x) { s.to_multiset().count(x) } else { 0 }),
    decreases s.len(),
{
    broadcast use vstd::seq_lib::to_multiset_build, vstd::seq_lib::to_multiset_contains, vstd::multiset::group_multiset_axioms;
    reveal(Seq::filter);
    if s.len() == 0 {
        assert(!s.contains(x));
        assert(s.filter(f) =~= s);
    } else {
        let t = s.drop_last();
        let e = s.last();
        lemma_filter_count(t, f, x);
        assert(s =~= t.push(e));
        assert(t.push(e).to_multiset() == t.to_multiset().insert(e));
        if f(e) {
            assert(t.filter(f).push(e).to_multiset() == t.filter(f).to_multiset().insert(e));
        }
    }
}

/// Two sorted sequences of the same texts, each as often, are the same.
pub proof fn lemma_sorted_unique(a: Seq<Seq<char>>, b: Seq<Seq<char>>)
    requires
        lex_sorted(a),
        lex_sorted(b),
        a.to_multiset() == b.to_multiset(),
    ensures
        a == b,
    decreases a.len(),
{
    broadcast use vstd::seq_lib::to_multiset_remove, vstd::seq_lib::to_multiset_len, vstd::seq_lib::to_multiset_contains, vstd::multiset::group_multiset_axioms;
    assert(a.len() == a.to_multiset().len());
    assert(b.len() == b.to_multiset().len());
    if a.len() == 0 {
        assert(a =~= b);
    } else {
        let n = a.len() as int;
        let x = a.last();
        let y = b.last();
        assert(a.to_multiset().count(x) > 0) by {
            assert(a.contains(x)) by { assert(a[n - 1] == x); }
        }
        assert(b.contains(x));
        let j = choose|j: int| 0 <= j < b.len() && b[j] == x;
        if j < n - 1 {
            assert(lex_le(b[j], b[n - 1]));
        } else {
            lemma_lex_refl(x);
        }
        assert(a.to_multiset().count(y) > 0) by {
            assert(b.contains(y)) by { assert(b[n - 1] == y); }
        }
        assert(a.contains(y));
        let k = choose|k: int| 0 <= k < a.len() && a[k] == y;
        if k < n - 1 {
            assert(lex_le(a[k], a[n - 1]));
        } else {
            lemma_lex_refl(y);
        }
        lemma_lex_antisymmetric(x, y);
        let a1 = a.drop_last();
        let b1 = b.drop_last();
        assert(a1 =~= a.remove(n - 1));
        assert(b1 =~= b.remove(n - 1));
        assert(a.remove(n - 1).to_multiset() == a.to_multiset().remove(a[n - 1]));
        assert(b.remove(n - 1).to_multiset() == b.to_multiset().remove(b[n - 1]));
        assert forall|i: int, j2: int| 0 <= i < j2 < a1.len() implies lex_le(#[trigger] a1[i], #[trigger] a1[j2]) by {
            assert(a1[i] == a[i] && a1[j2] == a[j2]);
        }
        assert forall|i: int, j2: int| 0 <= i < j2 < b1.len() implies lex_le(#[trigger] b1[i], #[trigger] b1[j2]) by {
            assert(b1[i] == b[i] && b1[j2] == b[j2]);
        }
        lemma_sorted_unique(a1, b1);
        assert(a =~= a1.push(x));
        assert(b =~= b1.push(y));
    }
}

/// The configuration list does not depend on the order in which a directory
/// listing gives its entries: two listings of the same paths, each as often,
/// give the same list.
pub proof fn lemma_config_list_order_free(
    p1: Seq<Seq<char>>,
    p2: Seq<Seq<char>>,
    r1: Seq<Seq<char>>,
    r2: Seq<Seq<char>>,
)
    requires
        p1.to_multiset() == p2.to_multiset(),
        r1.to_multiset() == p1.filter(|p: Seq<char>| is_toml_file(p)).to_multiset(),
        r2.to_multiset() == p2.filter(|p: Seq<char>| is_toml_file(p)).to_multiset(),
        lex_sorted(r1),
        lex_sorted(r2),
    ensures
        r1 == r2,
{
    let f = |p: Seq<char>| is_toml_file(p);
    assert(p1.filter(f).to_multiset() =~= p2.filter(f).to_multiset()) by {
        assert forall|x: Seq<char>| p1.filter(f).to_multiset().count(x) == p2.filter(f).to_multiset().count(x) by {
            lemma_filter_count(p1, f, x);
            lemma_filter_count(p2, f, x);
        }
    }
    lemma_sorted_unique(r1, r2);
}

/// The texts in order: the same texts, each as often, sorted.
pub fn sort_texts(v: Vec<String>) -> (r: Vec<String>)
    ensures
        string_views(r@).to_multiset() == string_views(v@).to_multiset(),
        lex_sorted(string_views(r@)),
{
    let mut r: Vec<String> = Vec::new();
    let n = v.len();
    let mut k: usize = 0;
    assert(string_views(v@.take(0)) =~= string_views(r@));
    while k < n
        invariant
            n == v@.len(),
            k <= n,
            string_views(r@).to_multiset() == string_views(v@.take(k as int)).to_multiset(),
            lex_sorted(string_views(r@)),
        decreases n - k,
    {
        let x = v[k].clone();
        let ghost rs = string_views(r@);
        // The first position whose text comes after `x`.
        let mut p: usize = 0;
        while p < r.len() && text_le(r[p].as_str(), x.as_str())
            invariant
                rs == string_views(r@),
                p <= r@.len(),
                forall|i: int| 0 <= i < p ==> lex_le(#[trigger] rs[i], x@),
            decreases r@.len() - p,
        {
            p = p + 1;
        }
        proof {
            if p < r@.len() {
                assert(rs[p as int] == r@[p as int]@);
                lemma_lex_total(rs[p as int], x@);
            }
        }
        let ghost xv = x@;
        assert(xv == v@[k as int]@);
        r.insert(p, x);
        proof {
            let ns = string_views(r@);
            let before = string_views(v@.take(k as int));
            assert(ns =~= rs.insert(p as int, xv));
            assert(string_views(v@.take(k as int + 1)) =~= before.push(xv));
            vstd::seq_lib::to_multiset_insert(rs, p as int, xv);
            vstd::seq_lib::to_multiset_build(before, xv);
            assert forall|i: int, j: int| 0 <= i < j < ns.len() implies lex_le(#[trigger] ns[i], #[trigger] ns[j]) by {
                if j < p {
                    assert(ns[i] == rs[i] && ns[j] == rs[j]);
                } else if j == p {
                    assert(ns[i] == rs[i]);
                } else if i == p {
                    assert(ns[j] == rs[j - 1]);
                    if j - 1 > p {
                        lemma_lex_trans(xv, rs[p as int], rs[j - 1]);
                    }
                } else if i < p {
                    assert(ns[i] == rs[i] && ns[j] == rs[j - 1]);
                } else {
                    assert(ns[i] == rs[i - 1] && ns[j] == rs[j - 1]);
                }
            }
        }
        k = k + 1;
    }
    assert(v@.take(n as int) =~= v@);
    r
}

/// The TOML files among the paths of a directory listing, sorted: the same
/// files, each as often, in order.
pub fn config_list(paths: Vec<String>) -> (r: Vec<String>)
    ensures
        string_views(r@).to_multiset() == string_views(paths@).filter(|p: Seq<char>| is_toml_file(p)).to_multiset(),
        lex_sorted(string_views(r@)),
{
    let ghost ps = string_views(paths@);
    let ghost pred = |p: Seq<char>| is_toml_file(p);
    let mut kept: Vec<String> = Vec::new();
    let n = paths.len();
    let mut i: usize = 0;
    while i < n
        invariant
            n == paths@.len(),
            ps == string_views(paths@),
            pred == (|p: Seq<char>| is_toml_file(p)),
            i <= n,
            string_views(kept@) == ps.take(i as int).filter(pred),
        decreases n - i,
    {
        proof {
            assert(ps.take(i as int + 1).drop_last() =~= ps.take(i as int));
            assert(ps.take(i as int + 1).last() == paths@[i as int]@);
            reveal(Seq::filter);
        }
        let ghost before = string_views(kept@);
        if has_toml_extension(paths[i].as_str()) {
            kept.push(paths[i].clone());
            assert(string_views(kept@) =~= before.push(paths@[i as int]@));
        } else {
            assert(string_views(kept@) =~= before);
        }
        i = i + 1;
    }
    assert(ps.take(n as int) =~= ps);
    sort_texts(kept)
}

} // verus!
