//! Primitive record fields as tokens.
//!
//! Each resource serializes to a flat token list (see [`crate::codec`]).
//! This module gives, for every primitive field shape, the spec-level token
//! builder `toks_*`, the spec-level cursor reader `rd_*`, executable
//! writers/readers proven to mirror them, and the round-trip lemmas tying the
//! two together.

use crate::codec::{dec_digits, digit_to_val, digit_val, fmt_u64, is_digit, is_digit_char, lemma_dec_digits_wf, lemma_parse_dec_digits, parse_nat};
use crate::GfsError;
use vstd::prelude::*;
use vstd::string::*;

verus! {

// ---------------------------------------------------------------------------
// Spec-level token builders
// ---------------------------------------------------------------------------
pub open spec fn toks_str(s: Seq<char>) -> Seq<Seq<char>> {
    seq![s]
}

pub open spec fn toks_u64(n: u64) -> Seq<Seq<char>> {
    seq![dec_digits(n as nat)]
}

/// A signed value is carried as its two's-complement bit pattern.
pub open spec fn toks_i64(n: i64) -> Seq<Seq<char>> {
    seq![dec_digits((n as u64) as nat)]
}

pub open spec fn toks_bool(b: bool) -> Seq<Seq<char>> {
    if b {
        seq![seq!['1']]
    } else {
        seq![seq!['0']]
    }
}

pub open spec fn toks_opt_str(v: Option<Seq<char>>) -> Seq<Seq<char>> {
    match v {
        None => seq![seq!['0']],
        Some(s) => seq![seq!['1'], s],
    }
}

pub open spec fn toks_opt_i64(v: Option<i64>) -> Seq<Seq<char>> {
    match v {
        None => seq![seq!['0']],
        Some(n) => seq![seq!['1']] + toks_i64(n),
    }
}

pub open spec fn toks_strs(v: Seq<Seq<char>>) -> Seq<Seq<char>> {
    seq![dec_digits(v.len())] + v
}

pub open spec fn flat_pairs(v: Seq<(Seq<char>, Seq<char>)>) -> Seq<Seq<char>>
    decreases v.len(),
{
    if v.len() == 0 {
        Seq::<Seq<char>>::empty()
    } else {
        seq![v[0].0, v[0].1] + flat_pairs(v.drop_first())
    }
}

pub open spec fn toks_pairs(v: Seq<(Seq<char>, Seq<char>)>) -> Seq<Seq<char>> {
    seq![dec_digits(v.len())] + flat_pairs(v)
}

// ---------------------------------------------------------------------------
// Spec-level cursor readers
// ---------------------------------------------------------------------------
pub open spec fn all_digits(t: Seq<char>) -> bool {
    forall|i: int| 0 <= i < t.len() ==> is_digit(#[trigger] t[i])
}

pub open spec fn rd_str(ts: Seq<Seq<char>>, pos: int) -> Option<(Seq<char>, int)> {
    if 0 <= pos < ts.len() {
        Some((ts[pos], pos + 1))
    } else {
        None
    }
}

pub open spec fn rd_u64(ts: Seq<Seq<char>>, pos: int) -> Option<(u64, int)> {
    if 0 <= pos < ts.len() && ts[pos].len() > 0 && all_digits(ts[pos]) && parse_nat(ts[pos])
        <= u64::MAX {
        Some((parse_nat(ts[pos]) as u64, pos + 1))
    } else {
        None
    }
}

pub open spec fn rd_u32(ts: Seq<Seq<char>>, pos: int) -> Option<(u32, int)> {
    match rd_u64(ts, pos) {
        Some((n, p)) => if n <= u32::MAX as u64 {
            Some((n as u32, p))
        } else {
            None
        },
        None => None,
    }
}

pub open spec fn rd_i64(ts: Seq<Seq<char>>, pos: int) -> Option<(i64, int)> {
    match rd_u64(ts, pos) {
        Some((n, p)) => Some((n as i64, p)),
        None => None,
    }
}

pub open spec fn rd_bool(ts: Seq<Seq<char>>, pos: int) -> Option<(bool, int)> {
    if 0 <= pos < ts.len() {
        if ts[pos].len() == 1 && ts[pos][0] == '0' {
            Some((false, pos + 1))
        } else if ts[pos].len() == 1 && ts[pos][0] == '1' {
            Some((true, pos + 1))
        } else {
            None
        }
    } else {
        None
    }
}

pub open spec fn rd_opt_str(ts: Seq<Seq<char>>, pos: int) -> Option<(Option<Seq<char>>, int)> {
    match rd_bool(ts, pos) {
        Some((false, p)) => Some((None, p)),
        Some((true, p)) => match rd_str(ts, p) {
            Some((s, p2)) => Some((Some(s), p2)),
            None => None,
        },
        None => None,
    }
}

pub open spec fn rd_opt_i64(ts: Seq<Seq<char>>, pos: int) -> Option<(Option<i64>, int)> {
    match rd_bool(ts, pos) {
        Some((false, p)) => Some((None, p)),
        Some((true, p)) => match rd_i64(ts, p) {
            Some((n, p2)) => Some((Some(n), p2)),
            None => None,
        },
        None => None,
    }
}

pub open spec fn rd_str_n(ts: Seq<Seq<char>>, pos: int, n: nat) -> Option<(Seq<Seq<char>>, int)>
    decreases n,
{
    if n == 0 {
        Some((Seq::<Seq<char>>::empty(), pos))
    } else {
        match rd_str(ts, pos) {
            Some((s, p)) => match rd_str_n(ts, p, (n - 1) as nat) {
                Some((rest, p2)) => Some((seq![s] + rest, p2)),
                None => None,
            },
            None => None,
        }
    }
}

pub open spec fn rd_strs(ts: Seq<Seq<char>>, pos: int) -> Option<(Seq<Seq<char>>, int)> {
    match rd_u64(ts, pos) {
        Some((n, p)) => rd_str_n(ts, p, n as nat),
        None => None,
    }
}

pub open spec fn rd_pair_n(ts: Seq<Seq<char>>, pos: int, n: nat) -> Option<
    (Seq<(Seq<char>, Seq<char>)>, int),
>
    decreases n,
{
    if n == 0 {
        Some((Seq::<(Seq<char>, Seq<char>)>::empty(), pos))
    } else {
        match rd_str(ts, pos) {
            Some((a, p)) => match rd_str(ts, p) {
                Some((b, p2)) => match rd_pair_n(ts, p2, (n - 1) as nat) {
                    Some((rest, p3)) => Some((seq![(a, b)] + rest, p3)),
                    None => None,
                },
                None => None,
            },
            None => None,
        }
    }
}

pub open spec fn rd_pairs(ts: Seq<Seq<char>>, pos: int) -> Option<
    (Seq<(Seq<char>, Seq<char>)>, int),
> {
    match rd_u64(ts, pos) {
        Some((n, p)) => rd_pair_n(ts, p, n as nat),
        None => None,
    }
}

pub open spec fn flat_id_pairs(v: Seq<(u32, Seq<char>)>) -> Seq<Seq<char>>
    decreases v.len(),
{
    if v.len() == 0 {
        Seq::<Seq<char>>::empty()
    } else {
        seq![dec_digits(v[0].0 as nat), v[0].1] + flat_id_pairs(v.drop_first())
    }
}

/// Tokens of a list of (node id, resource id) pairs.
pub open spec fn toks_id_pairs(v: Seq<(u32, Seq<char>)>) -> Seq<Seq<char>> {
    seq![dec_digits(v.len())] + flat_id_pairs(v)
}

pub open spec fn rd_id_pair_n(ts: Seq<Seq<char>>, pos: int, n: nat) -> Option<
    (Seq<(u32, Seq<char>)>, int),
>
    decreases n,
{
    if n == 0 {
        Some((Seq::<(u32, Seq<char>)>::empty(), pos))
    } else {
        match rd_u32(ts, pos) {
            Some((a, p)) => match rd_str(ts, p) {
                Some((b, p2)) => match rd_id_pair_n(ts, p2, (n - 1) as nat) {
                    Some((rest, p3)) => Some((seq![(a, b)] + rest, p3)),
                    None => None,
                },
                None => None,
            },
            None => None,
        }
    }
}

pub open spec fn rd_id_pairs(ts: Seq<Seq<char>>, pos: int) -> Option<(Seq<(u32, Seq<char>)>, int)> {
    match rd_u64(ts, pos) {
        Some((n, p)) => rd_id_pair_n(ts, p, n as nat),
        None => None,
    }
}

// ---------------------------------------------------------------------------
// Round-trip lemmas: reading recovers exactly what the builders wrote
// ---------------------------------------------------------------------------
/// Reading a `u64` token written by `toks_u64` recovers the value.
pub proof fn lemma_rd_u64(ts: Seq<Seq<char>>, pos: int, n: u64)
    requires
        0 <= pos < ts.len(),
        ts[pos] == dec_digits(n as nat),
    ensures
        rd_u64(ts, pos) == Some((n, pos + 1)),
{
    lemma_dec_digits_wf(n as nat);
    lemma_parse_dec_digits(n as nat);
}

pub proof fn lemma_rd_i64(ts: Seq<Seq<char>>, pos: int, n: i64)
    requires
        0 <= pos < ts.len(),
        ts[pos] == dec_digits((n as u64) as nat),
    ensures
        rd_i64(ts, pos) == Some((n, pos + 1)),
{
    lemma_rd_u64(ts, pos, n as u64);
    assert(((n as u64) as i64) == n) by (bit_vector);
}

pub proof fn lemma_rd_u32(ts: Seq<Seq<char>>, pos: int, n: u32)
    requires
        0 <= pos < ts.len(),
        ts[pos] == dec_digits(n as nat),
    ensures
        rd_u32(ts, pos) == Some((n, pos + 1)),
{
    lemma_rd_u64(ts, pos, n as u64);
}

/// Reading an optional string token pair written by `toks_opt_str` recovers
/// the value.
pub proof fn lemma_rd_opt_str(ts: Seq<Seq<char>>, pos: int, o: Option<Seq<char>>)
    requires
        0 <= pos,
        pos + toks_opt_str(o).len() <= ts.len(),
        forall|i: int| 0 <= i < toks_opt_str(o).len() ==> ts[pos + i] == #[trigger] toks_opt_str(o)[i],
    ensures
        rd_opt_str(ts, pos) == Some((o, pos + toks_opt_str(o).len())),
{
    match o {
        None => {
            assert(toks_opt_str(o)[0] == seq!['0']);
            assert(ts[pos] == seq!['0']);
            assert(ts[pos].len() == 1 && ts[pos][0] == '0');
        },
        Some(s) => {
            assert(toks_opt_str(o)[0] == seq!['1']);
            assert(toks_opt_str(o)[1] == s);
            assert(ts[pos] == seq!['1']);
            assert(ts[pos].len() == 1 && ts[pos][0] == '1');
            assert(ts[pos + 1] == s);
        },
    }
}

/// Reading an optional signed value written by `toks_opt_i64` recovers it.
pub proof fn lemma_rd_opt_i64(ts: Seq<Seq<char>>, pos: int, o: Option<i64>)
    requires
        0 <= pos,
        pos + toks_opt_i64(o).len() <= ts.len(),
        forall|i: int| 0 <= i < toks_opt_i64(o).len() ==> ts[pos + i] == #[trigger] toks_opt_i64(o)[i],
    ensures
        rd_opt_i64(ts, pos) == Some((o, pos + toks_opt_i64(o).len())),
{
    match o {
        None => {
            assert(toks_opt_i64(o)[0] == seq!['0']);
            assert(ts[pos] == seq!['0']);
            assert(ts[pos].len() == 1 && ts[pos][0] == '0');
        },
        Some(n) => {
            assert(toks_opt_i64(o)[0] == seq!['1']);
            assert(toks_opt_i64(o)[1] == dec_digits((n as u64) as nat));
            assert(ts[pos] == seq!['1']);
            assert(ts[pos].len() == 1 && ts[pos][0] == '1');
            assert(ts[pos + 1] == dec_digits((n as u64) as nat));
            lemma_rd_i64(ts, pos + 1, n);
        },
    }
}

/// Reading `n` strings written back to back recovers them.
pub proof fn lemma_rd_str_n(ts: Seq<Seq<char>>, pos: int, v: Seq<Seq<char>>)
    requires
        0 <= pos,
        pos + v.len() <= ts.len(),
        forall|i: int| 0 <= i < v.len() ==> ts[pos + i] == #[trigger] v[i],
    ensures
        rd_str_n(ts, pos, v.len()) == Some((v, pos + v.len())),
    decreases v.len(),
{
    if v.len() == 0 {
        assert(rd_str_n(ts, pos, 0) == Some((Seq::<Seq<char>>::empty(), pos)));
        assert(v =~= Seq::<Seq<char>>::empty());
    } else {
        assert(ts[pos] == v[0]);
        lemma_rd_str_n(ts, pos + 1, v.drop_first());
        assert(seq![v[0]] + v.drop_first() =~= v);
    }
}

pub proof fn lemma_rd_strs(ts: Seq<Seq<char>>, pos: int, v: Seq<Seq<char>>)
    requires
        0 <= pos,
        pos + 1 + v.len() <= ts.len(),
        v.len() <= u64::MAX,
        ts[pos] == dec_digits(v.len()),
        forall|i: int| 0 <= i < v.len() ==> ts[pos + 1 + i] == #[trigger] v[i],
    ensures
        rd_strs(ts, pos) == Some((v, pos + 1 + v.len())),
{
    lemma_rd_u64(ts, pos, v.len() as u64);
    lemma_rd_str_n(ts, pos + 1, v);
}

pub proof fn lemma_rd_pair_n(ts: Seq<Seq<char>>, pos: int, v: Seq<(Seq<char>, Seq<char>)>)
    requires
        0 <= pos,
        pos + 2 * v.len() <= ts.len(),
        forall|i: int|
            0 <= i < v.len() ==> ts[pos + 2 * i] == (#[trigger] v[i]).0 && ts[pos + 2 * i + 1]
                == v[i].1,
    ensures
        rd_pair_n(ts, pos, v.len()) == Some((v, pos + 2 * v.len())),
    decreases v.len(),
{
    if v.len() == 0 {
        assert(v =~= Seq::<(Seq<char>, Seq<char>)>::empty());
    } else {
        assert(ts[pos] == v[0].0);
        assert(ts[pos + 1] == v[0].1);
        lemma_rd_pair_n(ts, pos + 2, v.drop_first());
        assert(seq![v[0]] + v.drop_first() =~= v);
    }
}

pub proof fn lemma_rd_pairs(ts: Seq<Seq<char>>, pos: int, v: Seq<(Seq<char>, Seq<char>)>)
    requires
        0 <= pos,
        pos + 1 + 2 * v.len() <= ts.len(),
        v.len() <= u64::MAX,
        ts[pos] == dec_digits(v.len()),
        forall|i: int|
            0 <= i < v.len() ==> ts[pos + 1 + 2 * i] == (#[trigger] v[i]).0 && ts[pos + 1 + 2 * i
                + 1] == v[i].1,
    ensures
        rd_pairs(ts, pos) == Some((v, pos + 1 + 2 * v.len())),
{
    lemma_rd_u64(ts, pos, v.len() as u64);
    lemma_rd_pair_n(ts, pos + 1, v);
}

/// `flat_pairs` lays pairs out flat, two tokens per pair.
pub proof fn lemma_flat_pairs_index(v: Seq<(Seq<char>, Seq<char>)>)
    ensures
        flat_pairs(v).len() == 2 * v.len(),
        forall|i: int|
            0 <= i < v.len() ==> flat_pairs(v)[2 * i] == (#[trigger] v[i]).0 && flat_pairs(v)[2 * i
                + 1] == v[i].1,
    decreases v.len(),
{
    if v.len() > 0 {
        lemma_flat_pairs_index(v.drop_first());
        assert forall|i: int| 0 <= i < v.len() implies flat_pairs(v)[2 * i] == (#[trigger] v[i]).0
            && flat_pairs(v)[2 * i + 1] == v[i].1 by {
            if i > 0 {
                assert(v.drop_first()[i - 1] == v[i]);
                assert(flat_pairs(v)[2 * i] == flat_pairs(v.drop_first())[2 * (i - 1)]);
                assert(flat_pairs(v)[2 * i + 1] == flat_pairs(v.drop_first())[2 * (i - 1) + 1]);
            }
        }
    }
}

pub proof fn lemma_rd_id_pair_n(ts: Seq<Seq<char>>, pos: int, v: Seq<(u32, Seq<char>)>)
    requires
        0 <= pos,
        pos + 2 * v.len() <= ts.len(),
        forall|i: int|
            0 <= i < v.len() ==> ts[pos + 2 * i] == dec_digits((#[trigger] v[i]).0 as nat) && ts[pos
                + 2 * i + 1] == v[i].1,
    ensures
        rd_id_pair_n(ts, pos, v.len()) == Some((v, pos + 2 * v.len())),
    decreases v.len(),
{
    if v.len() == 0 {
        assert(v =~= Seq::<(u32, Seq<char>)>::empty());
    } else {
        assert(ts[pos] == dec_digits(v[0].0 as nat));
        assert(ts[pos + 1] == v[0].1);
        lemma_rd_u32(ts, pos, v[0].0);
        lemma_rd_id_pair_n(ts, pos + 2, v.drop_first());
        assert(seq![v[0]] + v.drop_first() =~= v);
    }
}

pub proof fn lemma_rd_id_pairs(ts: Seq<Seq<char>>, pos: int, v: Seq<(u32, Seq<char>)>)
    requires
        0 <= pos,
        pos + 1 + 2 * v.len() <= ts.len(),
        v.len() <= u64::MAX,
        ts[pos] == dec_digits(v.len()),
        forall|i: int|
            0 <= i < v.len() ==> ts[pos + 1 + 2 * i] == dec_digits((#[trigger] v[i]).0 as nat)
                && ts[pos + 1 + 2 * i + 1] == v[i].1,
    ensures
        rd_id_pairs(ts, pos) == Some((v, pos + 1 + 2 * v.len())),
{
    lemma_rd_u64(ts, pos, v.len() as u64);
    lemma_rd_id_pair_n(ts, pos + 1, v);
}

/// `flat_id_pairs` lays pairs out flat, two tokens per pair.
pub proof fn lemma_flat_id_pairs_index(v: Seq<(u32, Seq<char>)>)
    ensures
        flat_id_pairs(v).len() == 2 * v.len(),
        forall|i: int|
            0 <= i < v.len() ==> flat_id_pairs(v)[2 * i] == dec_digits((#[trigger] v[i]).0 as nat)
                && flat_id_pairs(v)[2 * i + 1] == v[i].1,
    decreases v.len(),
{
    if v.len() > 0 {
        lemma_flat_id_pairs_index(v.drop_first());
        assert forall|i: int|
            0 <= i < v.len() implies flat_id_pairs(v)[2 * i] == dec_digits(
            (#[trigger] v[i]).0 as nat,
        ) && flat_id_pairs(v)[2 * i + 1] == v[i].1 by {
            if i > 0 {
                assert(v.drop_first()[i - 1] == v[i]);
                assert(flat_id_pairs(v)[2 * i] == flat_id_pairs(v.drop_first())[2 * (i - 1)]);
                assert(flat_id_pairs(v)[2 * i + 1] == flat_id_pairs(v.drop_first())[2 * (i - 1)
                    + 1]);
            }
        }
    }
}

proof fn lemma_flat_id_pairs_snoc(v: Seq<(u32, Seq<char>)>, x: (u32, Seq<char>))
    ensures
        flat_id_pairs(v.push(x)) == flat_id_pairs(v) + seq![dec_digits(x.0 as nat), x.1],
    decreases v.len(),
{
    if v.len() == 0 {
        assert(v.push(x)[0] == x);
        assert(v.push(x).drop_first() =~= Seq::<(u32, Seq<char>)>::empty());
        assert(flat_id_pairs(Seq::<(u32, Seq<char>)>::empty()) =~= Seq::<Seq<char>>::empty());
        assert(flat_id_pairs(v) =~= Seq::<Seq<char>>::empty());
        assert(flat_id_pairs(v.push(x)) =~= flat_id_pairs(v) + seq![dec_digits(x.0 as nat), x.1]);
    } else {
        lemma_flat_id_pairs_snoc(v.drop_first(), x);
        assert(v.push(x)[0] == v[0]);
        assert(v.push(x).len() == v.len() + 1);
        assert(v.push(x).drop_first() =~= v.drop_first().push(x));
        assert(flat_id_pairs(v.push(x)) =~= flat_id_pairs(v) + seq![dec_digits(x.0 as nat), x.1]);
    }
}

// ---------------------------------------------------------------------------
// Executable writers
// ---------------------------------------------------------------------------
pub fn write_str(out: &mut Vec<String>, s: &str)
    ensures
        final(out).deep_view() == old(out).deep_view() + toks_str(s@),
{
    out.push(String::from_str(s));
    proof {
        assert(out.deep_view() =~= old(out).deep_view() + toks_str(s@));
    }
}

pub fn write_u64(out: &mut Vec<String>, n: u64)
    ensures
        final(out).deep_view() == old(out).deep_view() + toks_u64(n),
{
    out.push(fmt_u64(n));
    proof {
        assert(out.deep_view() =~= old(out).deep_view() + toks_u64(n));
    }
}

pub fn write_i64(out: &mut Vec<String>, n: i64)
    ensures
        final(out).deep_view() == old(out).deep_view() + toks_i64(n),
{
    out.push(fmt_u64(#[verifier::truncate] (n as u64)));
    proof {
        assert(out.deep_view() =~= old(out).deep_view() + toks_i64(n));
    }
}

pub fn write_bool(out: &mut Vec<String>, b: bool)
    ensures
        final(out).deep_view() == old(out).deep_view() + toks_bool(b),
{
    if b {
        out.push(String::from_str("1"));
    } else {
        out.push(String::from_str("0"));
    }
    proof {
        reveal_strlit("0");
        reveal_strlit("1");
        assert("0"@ =~= seq!['0']);
        assert("1"@ =~= seq!['1']);
        assert(out.deep_view() =~= old(out).deep_view() + toks_bool(b));
    }
}

pub fn write_opt_str(out: &mut Vec<String>, v: &Option<String>)
    ensures
        final(out).deep_view() == old(out).deep_view() + toks_opt_str(v.deep_view()),
{
    match v {
        None => write_bool(out, false),
        Some(s) => {
            write_bool(out, true);
            write_str(out, s.as_str());
        },
    }
    proof {
        assert(out.deep_view() =~= old(out).deep_view() + toks_opt_str(v.deep_view()));
    }
}

pub fn write_opt_i64(out: &mut Vec<String>, v: &Option<i64>)
    ensures
        final(out).deep_view() == old(out).deep_view() + toks_opt_i64(*v),
{
    match v {
        None => write_bool(out, false),
        Some(n) => {
            write_bool(out, true);
            write_i64(out, *n);
        },
    }
    proof {
        assert(out.deep_view() =~= old(out).deep_view() + toks_opt_i64(*v));
    }
}

pub fn write_strs(out: &mut Vec<String>, v: &Vec<String>)
    ensures
        final(out).deep_view() == old(out).deep_view() + toks_strs(v.deep_view()),
{
    write_u64(out, v.len() as u64);
    let ghost base = out.deep_view();
    let mut i: usize = 0;
    while i < v.len()
        invariant
            i <= v.len(),
            base == old(out).deep_view() + toks_u64(v.len() as u64),
            out.deep_view() == base + v.deep_view().subrange(0, i as int),
        decreases v.len() - i,
    {
        write_str(out, v[i].as_str());
        proof {
            assert(out.deep_view() =~= base + v.deep_view().subrange(0, i + 1));
        }
        i = i + 1;
    }
    proof {
        assert(v.deep_view().subrange(0, v.len() as int) =~= v.deep_view());
        assert(out.deep_view() =~= old(out).deep_view() + toks_strs(v.deep_view()));
    }
}

pub fn write_pairs(out: &mut Vec<String>, v: &Vec<(String, String)>)
    ensures
        final(out).deep_view() == old(out).deep_view() + toks_pairs(v.deep_view()),
{
    write_u64(out, v.len() as u64);
    let ghost base = out.deep_view();
    let mut i: usize = 0;
    while i < v.len()
        invariant
            i <= v.len(),
            base == old(out).deep_view() + toks_u64(v.len() as u64),
            out.deep_view() == base + flat_pairs(v.deep_view().subrange(0, i as int)),
        decreases v.len() - i,
    {
        write_str(out, v[i].0.as_str());
        write_str(out, v[i].1.as_str());
        proof {
            let prev = v.deep_view().subrange(0, i as int);
            let cur = v.deep_view().subrange(0, i + 1);
            lemma_flat_pairs_index(prev);
            lemma_flat_pairs_index(cur);
            assert(out.deep_view() =~= base + flat_pairs(cur)) by {
                lemma_flat_pairs_snoc(prev, v.deep_view()[i as int]);
                assert(cur =~= prev.push(v.deep_view()[i as int]));
                assert(flat_pairs(prev.push(v.deep_view()[i as int])) =~= flat_pairs(prev) + seq![
                    v.deep_view()[i as int].0,
                    v.deep_view()[i as int].1,
                ]);
            }
        }
        i = i + 1;
    }
    proof {
        assert(v.deep_view().subrange(0, v.len() as int) =~= v.deep_view());
        assert(out.deep_view() =~= old(out).deep_view() + toks_pairs(v.deep_view()));
    }
}

pub proof fn lemma_flat_pairs_snoc(v: Seq<(Seq<char>, Seq<char>)>, x: (Seq<char>, Seq<char>))
    ensures
        flat_pairs(v.push(x)) == flat_pairs(v) + seq![x.0, x.1],
    decreases v.len(),
{
    if v.len() == 0 {
        assert(v.push(x)[0] == x);
        assert(v.push(x).drop_first() =~= Seq::<(Seq<char>, Seq<char>)>::empty());
        assert(flat_pairs(Seq::<(Seq<char>, Seq<char>)>::empty()) =~= Seq::<Seq<char>>::empty());
        assert(flat_pairs(v) =~= Seq::<Seq<char>>::empty());
        assert(flat_pairs(v.push(x)) =~= flat_pairs(v) + seq![x.0, x.1]);
    } else {
        lemma_flat_pairs_snoc(v.drop_first(), x);
        assert(v.push(x)[0] == v[0]);
        assert(v.push(x).len() == v.len() + 1);
        assert(v.push(x).drop_first() =~= v.drop_first().push(x));
        assert(flat_pairs(v.push(x)) =~= flat_pairs(v) + seq![x.0, x.1]);
    }
}

// ---------------------------------------------------------------------------
// Executable readers (mirroring the spec readers exactly)
// ---------------------------------------------------------------------------
pub fn read_str(ts: &Vec<String>, pos: usize) -> (r: Result<(String, usize), GfsError>)
    ensures
        match r {
            Ok((s, p)) => rd_str(ts.deep_view(), pos as int) == Some((s@, p as int)),
            Err(e) => e == GfsError::DecodeError && rd_str(ts.deep_view(), pos as int)
                == None::<(Seq<char>, int)>,
        },
{
    if pos < ts.len() {
        Ok((ts[pos].clone(), pos + 1))
    } else {
        Err(GfsError::DecodeError)
    }
}

pub fn read_u64(ts: &Vec<String>, pos: usize) -> (r: Result<(u64, usize), GfsError>)
    ensures
        match r {
            Ok((n, p)) => rd_u64(ts.deep_view(), pos as int) == Some((n, p as int)),
            Err(e) => e == GfsError::DecodeError && rd_u64(ts.deep_view(), pos as int)
                == None::<(u64, int)>,
        },
{
    if pos >= ts.len() {
        return Err(GfsError::DecodeError);
    }
    let t = ts[pos].as_str();
    let n = t.unicode_len();
    if n == 0 {
        return Err(GfsError::DecodeError);
    }
    let ghost tv = ts.deep_view()[pos as int];
    let mut i: usize = 0;
    let mut acc: u128 = 0;
    let mut over: bool = false;
    while i < n
        invariant
            i <= n,
            n == tv.len(),
            tv == ts.deep_view()[pos as int],
            pos < ts.len(),
            t@ == tv,
            forall|j: int| 0 <= j < i ==> is_digit(#[trigger] tv[j]),
            !over ==> acc == parse_nat(tv.subrange(0, i as int)) && acc <= u64::MAX,
            over ==> parse_nat(tv.subrange(0, i as int)) > u64::MAX,
        decreases n - i,
    {
        let c = t.get_char(i);
        if !is_digit_char(c) {
            proof {
                assert(!all_digits(tv));
            }
            return Err(GfsError::DecodeError);
        }
        let d = digit_to_val(c) as u128;
        proof {
            let prefix = tv.subrange(0, i as int);
            let cur = tv.subrange(0, i + 1);
            assert(cur.drop_last() =~= prefix);
            assert(cur.last() == tv[i as int]);
            assert(digit_val(tv[i as int]) == d);
            if over {
                assert(parse_nat(cur) == parse_nat(prefix) * 10 + digit_val(cur.last()));
                assert(parse_nat(prefix) * 10 >= parse_nat(prefix)) by (nonlinear_arith);
            } else {
                assert(parse_nat(cur) == parse_nat(prefix) * 10 + digit_val(cur.last()));
            }
        }
        if !over {
            let next = acc * 10 + d;
            if next > u64::MAX as u128 {
                over = true;
            } else {
                acc = next;
            }
        }
        i = i + 1;
    }
    proof {
        assert(tv.subrange(0, n as int) =~= tv);
    }
    if over {
        return Err(GfsError::DecodeError);
    }
    Ok((acc as u64, pos + 1))
}

pub fn read_u32(ts: &Vec<String>, pos: usize) -> (r: Result<(u32, usize), GfsError>)
    ensures
        match r {
            Ok((n, p)) => rd_u32(ts.deep_view(), pos as int) == Some((n, p as int)),
            Err(e) => e == GfsError::DecodeError && rd_u32(ts.deep_view(), pos as int)
                == None::<(u32, int)>,
        },
{
    let (n, p) = read_u64(ts, pos)?;
    if n <= u32::MAX as u64 {
        Ok((n as u32, p))
    } else {
        Err(GfsError::DecodeError)
    }
}

pub fn read_i64(ts: &Vec<String>, pos: usize) -> (r: Result<(i64, usize), GfsError>)
    ensures
        match r {
            Ok((n, p)) => rd_i64(ts.deep_view(), pos as int) == Some((n, p as int)),
            Err(e) => e == GfsError::DecodeError && rd_i64(ts.deep_view(), pos as int)
                == None::<(i64, int)>,
        },
{
    let (n, p) = read_u64(ts, pos)?;
    Ok((#[verifier::truncate] (n as i64), p))
}

pub fn read_bool(ts: &Vec<String>, pos: usize) -> (r: Result<(bool, usize), GfsError>)
    ensures
        match r {
            Ok((b, p)) => rd_bool(ts.deep_view(), pos as int) == Some((b, p as int)),
            Err(e) => e == GfsError::DecodeError && rd_bool(ts.deep_view(), pos as int)
                == None::<(bool, int)>,
        },
{
    if pos >= ts.len() {
        return Err(GfsError::DecodeError);
    }
    let t = ts[pos].as_str();
    let ghost tv = ts.deep_view()[pos as int];
    if t.unicode_len() != 1 {
        return Err(GfsError::DecodeError);
    }
    let c = t.get_char(0);
    if c == '0' {
        Ok((false, pos + 1))
    } else if c == '1' {
        Ok((true, pos + 1))
    } else {
        Err(GfsError::DecodeError)
    }
}

pub fn read_opt_str(ts: &Vec<String>, pos: usize) -> (r: Result<(Option<String>, usize), GfsError>)
    ensures
        match r {
            Ok((v, p)) => rd_opt_str(ts.deep_view(), pos as int) == Some((v.deep_view(), p as int)),
            Err(e) => e == GfsError::DecodeError && rd_opt_str(ts.deep_view(), pos as int)
                == None::<(Option<Seq<char>>, int)>,
        },
{
    let (tag, p) = read_bool(ts, pos)?;
    if tag {
        let (s, p2) = read_str(ts, p)?;
        Ok((Some(s), p2))
    } else {
        Ok((None, p))
    }
}

pub fn read_opt_i64(ts: &Vec<String>, pos: usize) -> (r: Result<(Option<i64>, usize), GfsError>)
    ensures
        match r {
            Ok((v, p)) => rd_opt_i64(ts.deep_view(), pos as int) == Some((v, p as int)),
            Err(e) => e == GfsError::DecodeError && rd_opt_i64(ts.deep_view(), pos as int)
                == None::<(Option<i64>, int)>,
        },
{
    let (tag, p) = read_bool(ts, pos)?;
    if tag {
        let (n, p2) = read_i64(ts, p)?;
        Ok((Some(n), p2))
    } else {
        Ok((None, p))
    }
}

pub fn read_strs(ts: &Vec<String>, pos: usize) -> (r: Result<(Vec<String>, usize), GfsError>)
    ensures
        match r {
            Ok((v, p)) => rd_strs(ts.deep_view(), pos as int) == Some((v.deep_view(), p as int)),
            Err(e) => e == GfsError::DecodeError && rd_strs(ts.deep_view(), pos as int)
                == None::<(Seq<Seq<char>>, int)>,
        },
{
    let (n, p0) = read_u64(ts, pos)?;
    let mut out: Vec<String> = Vec::new();
    let mut p = p0;
    let mut j: u64 = 0;
    proof {
        match rd_str_n(ts.deep_view(), p0 as int, n as nat) {
            Some((v, pp)) => {
                assert(Seq::<Seq<char>>::empty() + v =~= v);
            },
            None => {},
        }
    }
    while j < n
        invariant
            j <= n,
            rd_u64(ts.deep_view(), pos as int) == Some((n, p0 as int)),
            p <= ts.len(),
            rd_str_n(ts.deep_view(), p0 as int, n as nat) == lift_str_n(
                out.deep_view(),
                rd_str_n(ts.deep_view(), p as int, (n - j) as nat),
            ),
        decreases n - j,
    {
        match read_str(ts, p) {
            Ok((s, p2)) => {
                let ghost old_out = out.deep_view();
                let ghost old_p = p as int;
                let ghost sv = s@;
                out.push(s);
                p = p2;
                j = j + 1;
                proof {
                    assert(out.deep_view() =~= old_out.push(sv));
                    assert(rd_str(ts.deep_view(), old_p) == Some((sv, p as int)));
                    match rd_str_n(ts.deep_view(), p as int, (n - j) as nat) {
                        Some((rest, pf)) => {
                            assert(rd_str_n(ts.deep_view(), old_p, (n - j + 1) as nat) == Some(
                                (seq![sv] + rest, pf),
                            ));
                            assert(old_out + (seq![sv] + rest) =~= out.deep_view() + rest);
                        },
                        None => {
                            assert(rd_str_n(ts.deep_view(), old_p, (n - j + 1) as nat) == None::<
                                (Seq<Seq<char>>, int),
                            >);
                        },
                    }
                }
            },
            Err(e) => {
                proof {
                    assert(rd_str_n(ts.deep_view(), p as int, (n - j) as nat) == None::<
                        (Seq<Seq<char>>, int),
                    >);
                }
                return Err(e);
            },
        }
    }
    proof {
        assert(rd_str_n(ts.deep_view(), p as int, 0) == Some((Seq::<Seq<char>>::empty(), p as int)));
        assert(out.deep_view() + Seq::<Seq<char>>::empty() =~= out.deep_view());
    }
    Ok((out, p))
}

/// Prepends already-read strings onto the outcome of reading the remainder.
pub open spec fn lift_str_n(done: Seq<Seq<char>>, res: Option<(Seq<Seq<char>>, int)>) -> Option<
    (Seq<Seq<char>>, int),
> {
    match res {
        Some((rest, p)) => Some((done + rest, p)),
        None => None,
    }
}

pub fn write_id_pairs(out: &mut Vec<String>, v: &Vec<(u32, String)>)
    ensures
        final(out).deep_view() == old(out).deep_view() + toks_id_pairs(v.deep_view()),
{
    write_u64(out, v.len() as u64);
    let ghost base = out.deep_view();
    let mut i: usize = 0;
    while i < v.len()
        invariant
            i <= v.len(),
            base == old(out).deep_view() + toks_u64(v.len() as u64),
            out.deep_view() == base + flat_id_pairs(v.deep_view().subrange(0, i as int)),
        decreases v.len() - i,
    {
        write_u64(out, v[i].0 as u64);
        write_str(out, v[i].1.as_str());
        proof {
            let prev = v.deep_view().subrange(0, i as int);
            let cur = v.deep_view().subrange(0, i + 1);
            assert(out.deep_view() =~= base + flat_id_pairs(cur)) by {
                lemma_flat_id_pairs_snoc(prev, v.deep_view()[i as int]);
                assert(cur =~= prev.push(v.deep_view()[i as int]));
            }
        }
        i = i + 1;
    }
    proof {
        assert(v.deep_view().subrange(0, v.len() as int) =~= v.deep_view());
        assert(out.deep_view() =~= old(out).deep_view() + toks_id_pairs(v.deep_view()));
    }
}

/// Prepends already-read id pairs onto the outcome of reading the remainder.
pub open spec fn lift_id_pair_n(
    done: Seq<(u32, Seq<char>)>,
    res: Option<(Seq<(u32, Seq<char>)>, int)>,
) -> Option<(Seq<(u32, Seq<char>)>, int)> {
    match res {
        Some((rest, p)) => Some((done + rest, p)),
        None => None,
    }
}

pub fn read_id_pairs(ts: &Vec<String>, pos: usize) -> (r: Result<
    (Vec<(u32, String)>, usize),
    GfsError,
>)
    ensures
        match r {
            Ok((v, p)) => rd_id_pairs(ts.deep_view(), pos as int) == Some(
                (v.deep_view(), p as int),
            ),
            Err(e) => e == GfsError::DecodeError && rd_id_pairs(ts.deep_view(), pos as int)
                == None::<(Seq<(u32, Seq<char>)>, int)>,
        },
{
    let (n, p0) = read_u64(ts, pos)?;
    let mut out: Vec<(u32, String)> = Vec::new();
    let mut p = p0;
    let mut j: u64 = 0;
    proof {
        match rd_id_pair_n(ts.deep_view(), p0 as int, n as nat) {
            Some((v, pp)) => {
                assert(Seq::<(u32, Seq<char>)>::empty() + v =~= v);
            },
            None => {},
        }
    }
    while j < n
        invariant
            j <= n,
            rd_u64(ts.deep_view(), pos as int) == Some((n, p0 as int)),
            p <= ts.len(),
            rd_id_pair_n(ts.deep_view(), p0 as int, n as nat) == lift_id_pair_n(
                out.deep_view(),
                rd_id_pair_n(ts.deep_view(), p as int, (n - j) as nat),
            ),
        decreases n - j,
    {
        let a = match read_u32(ts, p) {
            Ok(x) => x,
            Err(e) => {
                proof {
                    assert(rd_id_pair_n(ts.deep_view(), p as int, (n - j) as nat) == None::<
                        (Seq<(u32, Seq<char>)>, int),
                    >);
                }
                return Err(e);
            },
        };
        let b = match read_str(ts, a.1) {
            Ok(x) => x,
            Err(e) => {
                proof {
                    assert(rd_id_pair_n(ts.deep_view(), p as int, (n - j) as nat) == None::<
                        (Seq<(u32, Seq<char>)>, int),
                    >);
                }
                return Err(e);
            },
        };
        let ghost old_out = out.deep_view();
        let ghost old_p = p as int;
        let ghost av = a.0;
        let ghost bv = b.0@;
        out.push((a.0, b.0));
        p = b.1;
        j = j + 1;
        proof {
            assert(out.deep_view() =~= old_out.push((av, bv)));
            match rd_id_pair_n(ts.deep_view(), p as int, (n - j) as nat) {
                Some((rest, pf)) => {
                    assert(rd_id_pair_n(ts.deep_view(), old_p, (n - j + 1) as nat) == Some(
                        (seq![(av, bv)] + rest, pf),
                    ));
                    assert(old_out + (seq![(av, bv)] + rest) =~= out.deep_view() + rest);
                },
                None => {
                    assert(rd_id_pair_n(ts.deep_view(), old_p, (n - j + 1) as nat) == None::<
                        (Seq<(u32, Seq<char>)>, int),
                    >);
                },
            }
        }
    }
    proof {
        assert(rd_id_pair_n(ts.deep_view(), p as int, 0) == Some(
            (Seq::<(u32, Seq<char>)>::empty(), p as int),
        ));
        assert(out.deep_view() + Seq::<(u32, Seq<char>)>::empty() =~= out.deep_view());
    }
    Ok((out, p))
}

/// Prepends already-read pairs onto the outcome of reading the remainder.
pub open spec fn lift_pair_n(
    done: Seq<(Seq<char>, Seq<char>)>,
    res: Option<(Seq<(Seq<char>, Seq<char>)>, int)>,
) -> Option<(Seq<(Seq<char>, Seq<char>)>, int)> {
    match res {
        Some((rest, p)) => Some((done + rest, p)),
        None => None,
    }
}

pub fn read_pairs(ts: &Vec<String>, pos: usize) -> (r: Result<
    (Vec<(String, String)>, usize),
    GfsError,
>)
    ensures
        match r {
            Ok((v, p)) => rd_pairs(ts.deep_view(), pos as int) == Some((v.deep_view(), p as int)),
            Err(e) => e == GfsError::DecodeError && rd_pairs(ts.deep_view(), pos as int)
                == None::<(Seq<(Seq<char>, Seq<char>)>, int)>,
        },
{
    let (n, p0) = read_u64(ts, pos)?;
    let mut out: Vec<(String, String)> = Vec::new();
    let mut p = p0;
    let mut j: u64 = 0;
    proof {
        match rd_pair_n(ts.deep_view(), p0 as int, n as nat) {
            Some((v, pp)) => {
                assert(Seq::<(Seq<char>, Seq<char>)>::empty() + v =~= v);
            },
            None => {},
        }
    }
    while j < n
        invariant
            j <= n,
            rd_u64(ts.deep_view(), pos as int) == Some((n, p0 as int)),
            p <= ts.len(),
            rd_pair_n(ts.deep_view(), p0 as int, n as nat) == lift_pair_n(
                out.deep_view(),
                rd_pair_n(ts.deep_view(), p as int, (n - j) as nat),
            ),
        decreases n - j,
    {
        let a = match read_str(ts, p) {
            Ok(x) => x,
            Err(e) => {
                proof {
                    assert(rd_pair_n(ts.deep_view(), p as int, (n - j) as nat) == None::<
                        (Seq<(Seq<char>, Seq<char>)>, int),
                    >);
                }
                return Err(e);
            },
        };
        let b = match read_str(ts, a.1) {
            Ok(x) => x,
            Err(e) => {
                proof {
                    assert(rd_pair_n(ts.deep_view(), p as int, (n - j) as nat) == None::<
                        (Seq<(Seq<char>, Seq<char>)>, int),
                    >);
                }
                return Err(e);
            },
        };
        let ghost old_out = out.deep_view();
        let ghost old_p = p as int;
        let ghost av = a.0@;
        let ghost bv = b.0@;
        out.push((a.0, b.0));
        p = b.1;
        j = j + 1;
        proof {
            assert(out.deep_view() =~= old_out.push((av, bv)));
            match rd_pair_n(ts.deep_view(), p as int, (n - j) as nat) {
                Some((rest, pf)) => {
                    assert(rd_pair_n(ts.deep_view(), old_p, (n - j + 1) as nat) == Some(
                        (seq![(av, bv)] + rest, pf),
                    ));
                    assert(old_out + (seq![(av, bv)] + rest) =~= out.deep_view() + rest);
                },
                None => {
                    assert(rd_pair_n(ts.deep_view(), old_p, (n - j + 1) as nat) == None::<
                        (Seq<(Seq<char>, Seq<char>)>, int),
                    >);
                },
            }
        }
    }
    proof {
        assert(rd_pair_n(ts.deep_view(), p as int, 0) == Some(
            (Seq::<(Seq<char>, Seq<char>)>::empty(), p as int),
        ));
        assert(out.deep_view() + Seq::<(Seq<char>, Seq<char>)>::empty() =~= out.deep_view());
    }
    Ok((out, p))
}

} // verus!
