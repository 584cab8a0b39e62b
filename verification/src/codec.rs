//! Length-prefixed token framing.
//!
//! A serialized resource is a flat list of string tokens; the framing writes
//! each token as `{decimal length}:{token}` so that arbitrary token text
//! round-trips without escaping.

use crate::GfsError;
use vstd::prelude::*;
use vstd::string::*;

verus! {

// ---------------------------------------------------------------------------
// Decimal representation of naturals
// ---------------------------------------------------------------------------
pub open spec fn digit_char(d: nat) -> char {
    if d == 0 {
        '0'
    } else if d == 1 {
        '1'
    } else if d == 2 {
        '2'
    } else if d == 3 {
        '3'
    } else if d == 4 {
        '4'
    } else if d == 5 {
        '5'
    } else if d == 6 {
        '6'
    } else if d == 7 {
        '7'
    } else if d == 8 {
        '8'
    } else {
        '9'
    }
}

pub open spec fn is_digit(c: char) -> bool {
    c == '0' || c == '1' || c == '2' || c == '3' || c == '4' || c == '5' || c == '6' || c == '7'
        || c == '8' || c == '9'
}

pub open spec fn digit_val(c: char) -> nat {
    if c == '0' {
        0
    } else if c == '1' {
        1
    } else if c == '2' {
        2
    } else if c == '3' {
        3
    } else if c == '4' {
        4
    } else if c == '5' {
        5
    } else if c == '6' {
        6
    } else if c == '7' {
        7
    } else if c == '8' {
        8
    } else {
        9
    }
}

/// The decimal digits of `n`, most significant first.
pub open spec fn dec_digits(n: nat) -> Seq<char>
    decreases n,
{
    if n < 10 {
        seq![digit_char(n)]
    } else {
        dec_digits(n / 10).push(digit_char(n % 10))
    }
}

/// The natural a digit sequence denotes.
pub open spec fn parse_nat(s: Seq<char>) -> nat
    decreases s.len(),
{
    if s.len() == 0 {
        0
    } else {
        parse_nat(s.drop_last()) * 10 + digit_val(s.last())
    }
}

pub proof fn lemma_dec_digits_wf(n: nat)
    ensures
        dec_digits(n).len() >= 1,
        forall|i: int| 0 <= i < dec_digits(n).len() ==> is_digit(#[trigger] dec_digits(n)[i]),
    decreases n,
{
    if n >= 10 {
        lemma_dec_digits_wf(n / 10);
    }
}

proof fn lemma_digit_round_trip(d: nat)
    requires
        d < 10,
    ensures
        digit_val(digit_char(d)) == d,
{
}

pub proof fn lemma_parse_dec_digits(n: nat)
    ensures
        parse_nat(dec_digits(n)) == n,
    decreases n,
{
    if n < 10 {
        lemma_digit_round_trip(n);
        assert(dec_digits(n).drop_last() =~= Seq::<char>::empty());
        assert(parse_nat(Seq::<char>::empty()) == 0);
        assert(dec_digits(n).last() == digit_char(n));
    } else {
        lemma_parse_dec_digits(n / 10);
        lemma_digit_round_trip(n % 10);
        assert(dec_digits(n).drop_last() =~= dec_digits(n / 10));
        assert(dec_digits(n).last() == digit_char(n % 10));
    }
}

fn digit_str(d: u64) -> (r: &'static str)
    requires
        d < 10,
    ensures
        r@ == seq![digit_char(d as nat)],
{
    proof {
        reveal_strlit("0");
        reveal_strlit("1");
        reveal_strlit("2");
        reveal_strlit("3");
        reveal_strlit("4");
        reveal_strlit("5");
        reveal_strlit("6");
        reveal_strlit("7");
        reveal_strlit("8");
        reveal_strlit("9");
    }
    let r = if d == 0 {
        "0"
    } else if d == 1 {
        "1"
    } else if d == 2 {
        "2"
    } else if d == 3 {
        "3"
    } else if d == 4 {
        "4"
    } else if d == 5 {
        "5"
    } else if d == 6 {
        "6"
    } else if d == 7 {
        "7"
    } else if d == 8 {
        "8"
    } else {
        "9"
    };
    proof {
        assert(r@ =~= seq![digit_char(d as nat)]);
    }
    r
}

/// Formats `n` in decimal.
pub fn fmt_u64(n: u64) -> (s: String)
    ensures
        s@ == dec_digits(n as nat),
    decreases n,
{
    if n < 10 {
        String::from_str(digit_str(n))
    } else {
        let mut s = fmt_u64(n / 10);
        s.append(digit_str(n % 10));
        proof {
            assert(s@ =~= dec_digits(n as nat));
        }
        s
    }
}

// ---------------------------------------------------------------------------
// Token framing
// ---------------------------------------------------------------------------
/// One framed token: `{decimal length}:{token}`.
pub open spec fn enc_tok(t: Seq<char>) -> Seq<char> {
    dec_digits(t.len()) + seq![':'] + t
}

/// A framed token list.
pub open spec fn enc_toks(ts: Seq<Seq<char>>) -> Seq<char>
    decreases ts.len(),
{
    if ts.len() == 0 {
        Seq::<char>::empty()
    } else {
        enc_tok(ts[0]) + enc_toks(ts.drop_first())
    }
}

pub proof fn lemma_enc_toks_app(a: Seq<Seq<char>>, b: Seq<Seq<char>>)
    ensures
        enc_toks(a + b) == enc_toks(a) + enc_toks(b),
    decreases a.len(),
{
    if a.len() == 0 {
        assert(a + b =~= b);
        assert(enc_toks(a) + enc_toks(b) =~= enc_toks(b));
    } else {
        lemma_enc_toks_app(a.drop_first(), b);
        assert((a + b).drop_first() =~= a.drop_first() + b);
        assert(enc_toks(a + b) =~= enc_tok(a[0]) + enc_toks(a.drop_first() + b));
        assert(enc_tok(a[0]) + (enc_toks(a.drop_first()) + enc_toks(b)) =~= (enc_tok(a[0])
            + enc_toks(a.drop_first())) + enc_toks(b));
    }
}

/// Number of leading decimal digits.
pub open spec fn digits_prefix_len(s: Seq<char>) -> nat
    decreases s.len(),
{
    if s.len() > 0 && is_digit(s[0]) {
        1 + digits_prefix_len(s.drop_first())
    } else {
        0
    }
}

pub proof fn lemma_digits_prefix_char(s: Seq<char>, k: nat)
    requires
        k <= s.len(),
        forall|j: int| 0 <= j < k ==> is_digit(#[trigger] s[j]),
        k == s.len() || !is_digit(s[k as int]),
    ensures
        digits_prefix_len(s) == k,
    decreases s.len(),
{
    if s.len() > 0 && is_digit(s[0]) {
        assert(k >= 1);
        lemma_digits_prefix_char(s.drop_first(), (k - 1) as nat);
    }
}

/// Parses one framed token: the token text and the remaining input.
pub open spec fn dec_head(s: Seq<char>) -> Option<(Seq<char>, Seq<char>)> {
    let k = digits_prefix_len(s) as int;
    if k == 0 || k >= s.len() || s[k] != ':' {
        None
    } else {
        let n = parse_nat(s.subrange(0, k)) as int;
        if k + 1 + n > s.len() {
            None
        } else {
            Some((s.subrange(k + 1, k + 1 + n), s.subrange(k + 1 + n, s.len() as int)))
        }
    }
}

/// Parses a whole framed token list; `None` on any malformation.
pub open spec fn dec_toks(s: Seq<char>) -> Option<Seq<Seq<char>>>
    decreases s.len(),
{
    if s.len() == 0 {
        Some(Seq::<Seq<char>>::empty())
    } else {
        match dec_head(s) {
            None => None,
            Some((t, rest)) => if rest.len() < s.len() {
                match dec_toks(rest) {
                    None => None,
                    Some(ts) => Some(seq![t] + ts),
                }
            } else {
                None
            },
        }
    }
}

/// Framing then parsing one head token is the identity.
pub proof fn lemma_dec_head_of_enc(t: Seq<char>, rest: Seq<char>)
    ensures
        dec_head(enc_tok(t) + rest) == Some((t, rest)),
        (enc_tok(t) + rest).len() > rest.len(),
{
    let s = enc_tok(t) + rest;
    let d = dec_digits(t.len());
    lemma_dec_digits_wf(t.len());
    assert(forall|j: int| 0 <= j < d.len() ==> is_digit(#[trigger] s[j]));
    assert(s[d.len() as int] == ':');
    assert(!is_digit(':'));
    lemma_digits_prefix_char(s, d.len());
    assert(s.subrange(0, d.len() as int) =~= d);
    lemma_parse_dec_digits(t.len());
    let k = d.len() as int;
    let n = t.len() as int;
    assert(s.subrange(k + 1, k + 1 + n) =~= t);
    assert(s.subrange(k + 1 + n, s.len() as int) =~= rest);
}

/// Framing then parsing a token list is the identity.
pub proof fn lemma_dec_toks_of_enc(ts: Seq<Seq<char>>)
    ensures
        dec_toks(enc_toks(ts)) == Some(ts),
    decreases ts.len(),
{
    if ts.len() == 0 {
        assert(dec_toks(enc_toks(ts)) =~= Some(Seq::<Seq<char>>::empty()));
        assert(ts =~= Seq::<Seq<char>>::empty());
    } else {
        let rest = enc_toks(ts.drop_first());
        lemma_dec_head_of_enc(ts[0], rest);
        lemma_dec_toks_of_enc(ts.drop_first());
        assert(seq![ts[0]] + ts.drop_first() =~= ts);
    }
}

// ---------------------------------------------------------------------------
// Executable framing
// ---------------------------------------------------------------------------
/// Frames a token list into one string.
pub fn encode_tokens(toks: &Vec<String>) -> (s: String)
    ensures
        s@ == enc_toks(toks.deep_view()),
{
    let mut s = String::new();
    let mut i: usize = 0;
    while i < toks.len()
        invariant
            i <= toks.len(),
            s@ == enc_toks(toks.deep_view().subrange(0, i as int)),
        decreases toks.len() - i,
    {
        let t = toks[i].as_str();
        let n = t.unicode_len();
        let num = fmt_u64(n as u64);
        s.append(num.as_str());
        s.append(":");
        s.append(t);
        proof {
            reveal_strlit(":");
            let prev = toks.deep_view().subrange(0, i as int);
            let cur = toks.deep_view().subrange(0, i + 1 as int);
            assert(cur.drop_last() =~= prev);
            assert(cur =~= prev + seq![toks.deep_view()[i as int]]);
            lemma_enc_toks_app(prev, seq![toks.deep_view()[i as int]]);
            let single = seq![toks.deep_view()[i as int]];
            assert(single.drop_first() =~= Seq::<Seq<char>>::empty());
            assert(enc_toks(Seq::<Seq<char>>::empty()) =~= Seq::<char>::empty());
            assert(enc_toks(single) =~= enc_tok(toks.deep_view()[i as int]));
            assert(s@ =~= enc_toks(cur));
        }
        i = i + 1;
    }
    proof {
        assert(toks.deep_view().subrange(0, toks.len() as int) =~= toks.deep_view());
    }
    s
}

/// Parses a framed string back into its token list; any malformation is a
/// `DecodeError`.  Exactly mirrors [`dec_toks`].
pub fn decode_tokens(s: &str) -> (r: Result<Vec<String>, GfsError>)
    ensures
        match r {
            Ok(toks) => dec_toks(s@) == Some(toks.deep_view()),
            Err(e) => e == GfsError::DecodeError && dec_toks(s@) == None::<Seq<Seq<char>>>,
        },
{
    let len = s.unicode_len();
    let mut pos: usize = 0;
    let mut out: Vec<String> = Vec::new();
    proof {
        assert(s@.subrange(0, len as int) =~= s@);
        assert forall|ts: Seq<Seq<char>>|
            dec_toks(s@.subrange(0, len as int)) == Some(ts) implies dec_toks(s@) == Some(
            out.deep_view() + ts,
        ) by {
            assert(out.deep_view() + ts =~= ts);
        }
    }
    while pos < len
        invariant
            pos <= len,
            len == s@.len(),
            forall|ts: Seq<Seq<char>>|
                dec_toks(s@.subrange(pos as int, len as int)) == Some(ts) ==> dec_toks(s@)
                    == Some(out.deep_view() + ts),
            dec_toks(s@.subrange(pos as int, len as int)) == None::<Seq<Seq<char>>> ==> dec_toks(
                s@,
            ) == None::<Seq<Seq<char>>>,
        decreases len - pos,
    {
        let ghost rem = s@.subrange(pos as int, len as int);
        // scan the decimal length prefix
        let mut i: usize = pos;
        let mut acc: u128 = 0;
        let mut overflow: bool = false;
        while i < len && is_digit_char(s.get_char(i))
            invariant
                pos <= i <= len,
                len == s@.len(),
                rem == s@.subrange(pos as int, len as int),
                forall|j: int| pos <= j < i ==> is_digit(#[trigger] s@[j]),
                !overflow ==> acc == parse_nat(s@.subrange(pos as int, i as int)) && acc
                    <= len as u128,
                overflow ==> parse_nat(s@.subrange(pos as int, i as int)) > len,
            decreases len - i,
        {
            let c = s.get_char(i);
            let d: u128 = digit_to_val(c) as u128;
            proof {
                let prefix = s@.subrange(pos as int, i as int);
                let cur = s@.subrange(pos as int, i + 1);
                assert(cur.drop_last() =~= prefix);
                assert(cur.last() == s@[i as int]);
                assert(digit_val(s@[i as int]) == d);
            }
            if overflow {
                proof {
                    let prefix = s@.subrange(pos as int, i as int);
                    let cur = s@.subrange(pos as int, i + 1);
                    assert(parse_nat(cur) == parse_nat(prefix) * 10 + digit_val(cur.last()));
                    assert(parse_nat(prefix) * 10 >= parse_nat(prefix)) by (nonlinear_arith);
                }
            } else {
                let next = acc * 10 + d;
                if next > len as u128 {
                    overflow = true;
                } else {
                    acc = next;
                }
                proof {
                    let prefix = s@.subrange(pos as int, i as int);
                    let cur = s@.subrange(pos as int, i + 1);
                    assert(parse_nat(cur) == parse_nat(prefix) * 10 + digit_val(cur.last()));
                }
            }
            i = i + 1;
        }
        // the digit prefix of the remainder is i - pos
        proof {
            assert forall|j: int| 0 <= j < i - pos implies is_digit(#[trigger] rem[j]) by {
                assert(rem[j] == s@[pos + j]);
            }
            if i < len {
                assert(rem[i - pos] == s@[i as int]);
                assert(!is_digit(s@[i as int]));
            }
            lemma_digits_prefix_char(rem, (i - pos) as nat);
            assert(s@.subrange(pos as int, i as int) =~= rem.subrange(0, i - pos));
        }
        if i == pos {
            // no digits: the head is malformed
            proof {
                assert(dec_head(rem) == None::<(Seq<char>, Seq<char>)>);
            }
            return Err(GfsError::DecodeError);
        }
        if i >= len || s.get_char(i) != ':' {
            proof {
                if i < len {
                    assert(rem[i - pos] == s@[i as int]);
                }
                assert(dec_head(rem) == None::<(Seq<char>, Seq<char>)>);
            }
            return Err(GfsError::DecodeError);
        }
        proof {
            assert(rem[i - pos] == s@[i as int]);
        }
        // bounds-check the token body
        let body_start = i + 1;
        let ghost k = (i - pos) as int;
        let ghost n_spec = parse_nat(rem.subrange(0, k)) as int;
        if overflow || acc > (len - body_start) as u128 {
            proof {
                if overflow {
                    assert(n_spec > len);
                } else {
                    assert(n_spec == acc);
                }
                assert(k + 1 + n_spec > rem.len());
                assert(dec_head(rem) == None::<(Seq<char>, Seq<char>)>);
            }
            return Err(GfsError::DecodeError);
        }
        let body_end = body_start + (acc as usize);
        let tok_slice = s.substring_char(body_start, body_end);
        let tok = String::from_str(tok_slice);
        proof {
            assert(n_spec == acc);
            assert(dec_head(rem) == Some(
                (
                    rem.subrange(k + 1, k + 1 + n_spec),
                    rem.subrange(k + 1 + n_spec, rem.len() as int),
                ),
            ));
            assert(tok@ =~= rem.subrange(k + 1, k + 1 + n_spec));
            assert(s@.subrange(body_end as int, len as int) =~= rem.subrange(
                k + 1 + n_spec,
                rem.len() as int,
            ));
        }
        let ghost old_out = out.deep_view();
        out.push(tok);
        proof {
            assert(out.deep_view() =~= old_out + seq![tok@]);
            let new_rem = s@.subrange(body_end as int, len as int);
            // relate dec_toks(rem) to dec_toks(new_rem)
            assert(new_rem.len() < rem.len());
            assert forall|ts: Seq<Seq<char>>| dec_toks(new_rem) == Some(ts) implies dec_toks(s@)
                == Some(out.deep_view() + ts) by {
                assert(dec_toks(rem) == Some(seq![tok@] + ts));
                assert(old_out + (seq![tok@] + ts) =~= out.deep_view() + ts);
            }
            if dec_toks(new_rem) == None::<Seq<Seq<char>>> {
                assert(dec_toks(rem) == None::<Seq<Seq<char>>>);
            }
        }
        pos = body_end;
    }
    proof {
        assert(s@.subrange(pos as int, len as int) =~= Seq::<char>::empty());
        assert(dec_toks(Seq::<char>::empty()) == Some(Seq::<Seq<char>>::empty()));
        assert(out.deep_view() + Seq::<Seq<char>>::empty() =~= out.deep_view());
    }
    Ok(out)
}

/// Executable mirror of [`is_digit`].
pub(crate) fn is_digit_char(c: char) -> (b: bool)
    ensures
        b == is_digit(c),
{
    c == '0' || c == '1' || c == '2' || c == '3' || c == '4' || c == '5' || c == '6' || c == '7'
        || c == '8' || c == '9'
}

/// Numeric value of a decimal digit character.
pub(crate) fn digit_to_val(c: char) -> (d: usize)
    requires
        is_digit(c),
    ensures
        d == digit_val(c),
        d < 10,
{
    if c == '0' {
        0
    } else if c == '1' {
        1
    } else if c == '2' {
        2
    } else if c == '3' {
        3
    } else if c == '4' {
        4
    } else if c == '5' {
        5
    } else if c == '6' {
        6
    } else if c == '7' {
        7
    } else if c == '8' {
        8
    } else {
        9
    }
}

} // verus!
