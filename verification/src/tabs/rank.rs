//! The Rank tab's per-node table, and byte counts as the tab shows them:
//! "12 B", "1.5 KB", "3.25 MB", "1.00 GB", computed as the floating-point
//! division and fixed-precision formatting would, in exact integer
//! arithmetic.

use vstd::prelude::*;

use crate::text::{decimal, decimal_string, digit, digit_char};

verus! {

/// `2` to the power `k`.
pub open spec fn pow2n(k: nat) -> nat
    decreases k,
{
    if k == 0 {
        1
    } else {
        2 * pow2n((k - 1) as nat)
    }
}

/// `n / d` rounded to the nearest integer, a tie going to the even one.
pub open spec fn round_half_even(n: nat, d: nat) -> nat
    recommends
        d > 0,
{
    let q = n / d;
    let r = n % d;
    if 2 * r > d || (2 * r == d && q % 2 == 1) {
        q + 1
    } else {
        q
    }
}

/// The number of binary digits of `n` (none for 0).
pub open spec fn bit_length(n: nat) -> nat
    decreases n,
{
    if n == 0 {
        0
    } else {
        1 + bit_length(n / 2)
    }
}

/// The value of `n as f64`: `n` itself when it has at most 53 binary digits,
/// else `n` rounded to the nearest multiple of the unit of its last kept
/// digit, a tie going to the even multiple.
pub open spec fn as_f64_value(n: nat) -> nat {
    if bit_length(n) <= 53 {
        n
    } else {
        let k = (bit_length(n) - 53) as nat;
        round_half_even(n, pow2n(k)) * pow2n(k)
    }
}

/// `n / d` with `places` (1 or 2) decimals, rounded as `{:.1}` or `{:.2}`
/// rounds: to the nearest, a tie to an even last digit.
pub open spec fn fixed(n: nat, d: nat, places: nat) -> Seq<char> {
    if places == 1 {
        let q = round_half_even(n * 10, d);
        decimal(q / 10) + seq!['.', digit(q % 10)]
    } else {
        let q = round_half_even(n * 100, d);
        decimal(q / 100) + seq!['.', digit(q % 100 / 10), digit(q % 10)]
    }
}

/// 1 KB, 1 MB and 1 GB in bytes.
pub const KB: u128 = 1024;
pub const MB: u128 = 1048576;
pub const GB: u128 = 1073741824;

/// How a byte count is shown: in GB or MB with two decimals, in KB with one,
/// or in whole bytes, the unit chosen by the count's floating-point value.
pub open spec fn format_bytes_spec(bytes: nat) -> Seq<char> {
    let v = as_f64_value(bytes);
    if v >= GB {
        fixed(v, GB as nat, 2) + " GB"@
    } else if v >= MB {
        fixed(v, MB as nat, 2) + " MB"@
    } else if v >= KB {
        fixed(v, KB as nat, 1) + " KB"@
    } else {
        decimal(bytes) + " B"@
    }
}

fn round_half_even_exec(n: u128, d: u128) -> (q: u128)
    requires
        d > 0,
        n < u128::MAX,
    ensures
        q == round_half_even(n as nat, d as nat),
{
    let q = n / d;
    let r = n % d;
    if r > d - r || (r == d - r && q % 2 == 1) {
        q + 1
    } else {
        q
    }
}

fn fixed_exec(n: u128, d: u128, places: u128) -> (s: String)
    requires
        d > 0,
        places == 1 || places == 2,
        n * 100 <= u128::MAX,
    ensures
        s@ == fixed(n as nat, d as nat, places as nat),
{
    if places == 1 {
        let q = round_half_even_exec(n * 10, d);
        let mut s = decimal_string(q / 10);
        s.push('.');
        s.push(digit_char(q % 10));
        s
    } else {
        let q = round_half_even_exec(n * 100, d);
        let mut s = decimal_string(q / 100);
        s.push('.');
        s.push(digit_char(q % 100 / 10));
        s.push(digit_char(q % 10));
        s
    }
}

proof fn lemma_pow2n_step(k: nat)
    ensures
        pow2n(k + 1) == 2 * pow2n(k),
        pow2n(k) >= 1,
    decreases k,
{
    if k > 0 {
        lemma_pow2n_step((k - 1) as nat);
    }
}

proof fn lemma_bit_length_le(n: nat, k: nat)
    requires
        n < pow2n(k),
    ensures
        bit_length(n) <= k,
    decreases k,
{
    if n > 0 {
        if k == 0 {
        } else {
            lemma_pow2n_step((k - 1) as nat);
            lemma_bit_length_le(n / 2, (k - 1) as nat);
        }
    }
}

/// The value `n as f64` takes: see `as_f64_value`.
fn as_f64_exec(n: u64) -> (v: u128)
    ensures
        v == as_f64_value(n as nat),
        v <= 2 * (n as nat),
{
    proof {
        reveal_with_fuel(pow2n, 65);
        assert(pow2n(64) == 0x1_0000_0000_0000_0000);
        lemma_bit_length_le(n as nat, 64);
    }
    let mut m: u64 = n;
    let mut bl: u64 = 0;
    while m > 0
        invariant
            bit_length(n as nat) == bl + bit_length(m as nat),
            bit_length(n as nat) <= 64,
        decreases m,
    {
        m = m / 2;
        bl = bl + 1;
    }
    if bl <= 53 {
        n as u128
    } else {
        let k = bl - 53;
        let mut d: u128 = 1;
        let mut i: u64 = 0;
        proof {
            reveal_with_fuel(pow2n, 12);
            assert(pow2n(11) == 2048);
        }
        while i < k
            invariant
                i <= k,
                k <= 11,
                d == pow2n(i as nat),
                d <= 2048,
                pow2n(11) == 2048,
            decreases k - i,
        {
            proof {
                lemma_pow2n_step(i as nat);
                lemma_pow2n_mono((i + 1) as nat, 11);
            }
            d = d * 2;
            i = i + 1;
        }
        proof {
            lemma_pow2n_step(0);
            lemma_n_at_least_d(n as nat, bl as nat, k as nat);
        }
        let q = round_half_even_exec(n as u128, d);
        proof {
            let nn = n as int;
            let dd = d as int;
            vstd::arithmetic::div_mod::lemma_fundamental_div_mod(nn, dd);
            vstd::arithmetic::div_mod::lemma_mod_bound(nn, dd);
            assert((nn / dd) * dd <= nn) by (nonlinear_arith)
                requires
                    dd > 0,
                    nn == dd * (nn / dd) + nn % dd,
                    0 <= nn % dd;
            let x = nn / dd;
            let qq = q as int;
            assert(qq <= x + 1);
            assert(qq * dd <= nn + dd) by (nonlinear_arith)
                requires
                    0 <= qq <= x + 1,
                    x * dd <= nn,
                    dd > 0;
        }
        q * d
    }
}

proof fn lemma_pow2n_mono(a: nat, b: nat)
    requires
        a <= b,
    ensures
        pow2n(a) <= pow2n(b),
    decreases b,
{
    if a < b {
        lemma_pow2n_mono(a, (b - 1) as nat);
        lemma_pow2n_step((b - 1) as nat);
    }
}

proof fn lemma_pow2n_le_of_bits(n: nat)
    requires
        n > 0,
    ensures
        pow2n((bit_length(n) - 1) as nat) <= n,
    decreases n,
{
    assert(bit_length(0) == 0);
    if n / 2 > 0 {
        lemma_pow2n_le_of_bits(n / 2);
        lemma_pow2n_step((bit_length(n / 2) - 1) as nat);
    }
}

/// A count with `bl` binary digits is at least `2^k` when `k < bl`.
proof fn lemma_n_at_least_d(n: nat, bl: nat, k: nat)
    requires
        bit_length(n) == bl,
        k < bl,
    ensures
        pow2n(k) <= n,
{
    lemma_pow2n_le_of_bits(n);
    lemma_pow2n_mono(k, (bl - 1) as nat);
}

/// A byte count as the Rank tab shows it: see `format_bytes_spec`.
pub fn format_bytes(bytes: usize) -> (s: String)
    ensures
        s@ == format_bytes_spec(bytes as nat),
{
    let v = as_f64_exec(bytes as u64);
    if v >= GB {
        fixed_exec(v, GB, 2).concat(" GB")
    } else if v >= MB {
        fixed_exec(v, MB, 2).concat(" MB")
    } else if v >= KB {
        fixed_exec(v, KB, 1).concat(" KB")
    } else {
        decimal_string(bytes as u128).concat(" B")
    }
}

/// The dimensions that the nodes of the hierarchical Tucker tree hold, by
/// node: the six leaves, then the inner nodes up to the root.
pub open spec fn node_labels() -> Seq<Seq<char>> {
    seq![
        "x₁"@, "x₂"@, "x₃"@, "v₁"@, "v₂"@, "v₃"@, "{x₂,x₃}"@, "{v₂,v₃}"@, "{x₁..x₃}"@, "{v₁..v₃}"@, "root"@,
    ]
}

/// The label of node `i`.
pub fn node_label(i: usize) -> (s: &'static str)
    requires
        i < 11,
    ensures
        s@ == node_labels()[i as int],
{
    match i {
        0 => "x₁",
        1 => "x₂",
        2 => "x₃",
        3 => "v₁",
        4 => "v₂",
        5 => "v₃",
        6 => "{x₂,x₃}",
        7 => "{v₂,v₃}",
        8 => "{x₁..x₃}",
        9 => "{v₁..v₃}",
        _ => "root",
    }
}

/// A text padded with spaces on the left to `w` characters.
pub open spec fn right_aligned(s: Seq<char>, w: nat) -> Seq<char> {
    if s.len() < w {
        Seq::new((w - s.len()) as nat, |i: int| ' ') + s
    } else {
        s
    }
}

/// A row of the per-node table: the node's number (right-aligned in two
/// columns), the dimensions it holds, and its rank (zero when the run
/// reported fewer ranks).
pub open spec fn node_row(i: nat, ranks: Seq<usize>) -> (Seq<char>, Seq<char>, Seq<char>) {
    (
        right_aligned(decimal(i), 2),
        node_labels()[i as int],
        decimal(if i < ranks.len() { ranks[i as int] as nat } else { 0 }),
    )
}

/// The rows of the per-node table, one per node.
pub open spec fn node_rows(ranks: Seq<usize>) -> Seq<(Seq<char>, Seq<char>, Seq<char>)> {
    Seq::new(node_labels().len(), |i: int| node_row(i as nat, ranks))
}

/// The rows with their texts as character sequences.
pub open spec fn node_rows_view(v: Seq<(String, &'static str, String)>) -> Seq<(Seq<char>, Seq<char>, Seq<char>)> {
    v.map_values(|r: (String, &'static str, String)| (r.0@, r.1@, r.2@))
}

/// The rows of the per-node table for the ranks a run reported: see
/// `node_rows`.
pub fn per_node_rows(ranks: &Vec<usize>) -> (v: Vec<(String, &'static str, String)>)
    ensures
        node_rows_view(v@) == node_rows(ranks@),
{
    let mut v: Vec<(String, &'static str, String)> = Vec::new();
    let mut i: usize = 0;
    while i < 11
        invariant
            i <= 11,
            node_rows_view(v@) == node_rows(ranks@).take(i as int),
        decreases 11 - i,
    {
        let mut number = decimal_string(i as u128);
        if i < 10 {
            number = String::from_str(" ").concat(number.as_str());
            proof {
                reveal_strlit(" ");
                assert(decimal(i as nat).len() == 1);
            }
            assert(number@ =~= right_aligned(decimal(i as nat), 2));
        } else {
            assert(decimal((i / 10) as nat).len() == 1);
            assert(decimal(i as nat).len() == 2);
            assert(number@ =~= right_aligned(decimal(i as nat), 2));
        }
        let rank: usize = if i < ranks.len() { ranks[i] } else { 0 };
        let row = (number, node_label(i), decimal_string(rank as u128));
        let ghost before = node_rows_view(v@);
        v.push(row);
        proof {
            assert(node_rows_view(v@) =~= before.push((row.0@, row.1@, row.2@)));
            assert(node_rows(ranks@).take(i as int + 1) =~= node_rows(ranks@).take(i as int).push(node_row(i as nat, ranks@)));
        }
        i = i + 1;
    }
    assert(node_rows(ranks@).take(11) =~= node_rows(ranks@));
    v
}

} // verus!
