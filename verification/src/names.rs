//! Output file naming: a sanitized caller-supplied stem, a session
//! identifier, and a per-session file index make a base name; the
//! in-progress and finalized paths append fixed extensions. Distinct
//! indices provably give distinct base names, so no base name is ever
//! reused within a session.

use vstd::prelude::*;

verus! {

/// Characters kept by sanitization: ASCII letters, digits, and the
/// filename-safe punctuation `-`, `_`, `.`.
pub open spec fn keep_char(c: char) -> bool {
    ('a' <= c && c <= 'z') || ('A' <= c && c <= 'Z') || ('0' <= c && c <= '9') || c == '-'
        || c == '_' || c == '.'
}

/// Sanitization replaces every other character with `_`.
pub open spec fn sanitized(s: Seq<char>) -> Seq<char> {
    s.map_values(|c: char| if keep_char(c) { c } else { '_' })
}

/// The decimal digit characters, least significant last.
pub open spec fn digit_char(d: int) -> char {
    if d == 0 { '0' }
    else if d == 1 { '1' }
    else if d == 2 { '2' }
    else if d == 3 { '3' }
    else if d == 4 { '4' }
    else if d == 5 { '5' }
    else if d == 6 { '6' }
    else if d == 7 { '7' }
    else if d == 8 { '8' }
    else { '9' }
}

/// Decimal notation of a non-negative integer.
pub open spec fn dec_digits(n: int) -> Seq<char>
    decreases n,
{
    if n < 10 {
        seq![digit_char(n)]
    } else {
        dec_digits(n / 10) + seq![digit_char(n % 10)]
    }
}

/// The base name of file number `index` of a session.
pub open spec fn base_name_model(stem: Seq<char>, session_id: u64, index: u64) -> Seq<char> {
    sanitized(stem) + seq!['_'] + dec_digits(session_id as int) + seq!['_'] + dec_digits(
        index as int,
    )
}

fn digit_str(d: u64) -> (r: &'static str)
    requires
        d < 10,
    ensures
        r@ == seq![digit_char(d as int)],
{
    proof {
        reveal_strlit("0");
        reveal_strlit("1");
        reveal_strlit("2");
        reveal_strlit("3");
        reveal_strlit("4");
        reveal_strlit("5");
        reveal_strlit("6");
        reveal_strlit("7");
        reveal_strlit("8");
        reveal_strlit("9");
    }
    let r = match d {
        0 => "0",
        1 => "1",
        2 => "2",
        3 => "3",
        4 => "4",
        5 => "5",
        6 => "6",
        7 => "7",
        8 => "8",
        _ => "9",
    };
    proof {
        assert(r@ =~= seq![digit_char(d as int)]);
    }
    r
}

/// Decimal notation of `n`, as `dec_digits` states it.
pub fn u64_to_dec(n: u64) -> (r: String)
    ensures
        r@ == dec_digits(n as int),
    decreases n,
{
    if n < 10 {
        digit_str(n).to_owned()
    } else {
        let mut r = u64_to_dec(n / 10);
        r.append(digit_str(n % 10));
        proof {
            assert(r@ =~= dec_digits(n as int));
        }
        r
    }
}

/// Sanitization as `sanitized` states it.
pub fn sanitize_name(s: &str) -> (r: String)
    ensures
        r@ == sanitized(s@),
{
    let mut r = String::new();
    let len = s.unicode_len();
    let mut i: usize = 0;
    while i < len
        invariant
            len == s@.len(),
            0 <= i <= len,
            r@ =~= sanitized(s@).subrange(0, i as int),
        decreases len - i,
    {
        let c = s.get_char(i);
        let keep = ('a' <= c && c <= 'z') || ('A' <= c && c <= 'Z') || ('0' <= c && c <= '9')
            || c == '-' || c == '_' || c == '.';
        if keep {
            r.append(s.substring_char(i, i + 1));
        } else {
            proof {
                reveal_strlit("_");
            }
            r.append("_");
        }
        proof {
            assert(r@ =~= sanitized(s@).subrange(0, i + 1 as int));
        }
        i += 1;
    }
    proof {
        assert(sanitized(s@).subrange(0, s@.len() as int) =~= sanitized(s@));
    }
    r
}

/// The base name of file number `index`, as `base_name_model` states it.
pub fn derive_base_name(stem: &str, session_id: u64, index: u64) -> (r: String)
    ensures
        r@ == base_name_model(stem@, session_id, index),
{
    proof {
        reveal_strlit("_");
    }
    let mut r = sanitize_name(stem);
    r.append("_");
    let sid = u64_to_dec(session_id);
    r.append(sid.as_str());
    r.append("_");
    let idx = u64_to_dec(index);
    r.append(idx.as_str());
    proof {
        assert(r@ =~= base_name_model(stem@, session_id, index));
    }
    r
}

/// Path of the in-progress form of a base name.
pub fn part_path(base: &str) -> (r: String)
    ensures
        r@ == base@ + ".ts.part"@,
{
    let mut r = base.to_owned();
    r.append(".ts.part");
    r
}

/// Path of the finalized form of a base name.
pub fn final_path(base: &str) -> (r: String)
    ensures
        r@ == base@ + ".ts"@,
{
    let mut r = base.to_owned();
    r.append(".ts");
    r
}

/// Decimal notation never is empty.
pub proof fn lemma_dec_digits_len(n: int)
    requires
        n >= 0,
    ensures
        dec_digits(n).len() >= 1,
    decreases n,
{
    if n >= 10 {
        lemma_dec_digits_len(n / 10);
    }
}

/// The digit characters stand for exactly one digit each.
proof fn lemma_digit_char_injective(a: int, b: int)
    requires
        0 <= a < 10,
        0 <= b < 10,
        digit_char(a) == digit_char(b),
    ensures
        a == b,
{
}

/// Decimal notation names each number uniquely.
pub proof fn lemma_dec_digits_injective(a: int, b: int)
    requires
        a >= 0,
        b >= 0,
        dec_digits(a) == dec_digits(b),
    ensures
        a == b,
    decreases a,
{
    lemma_dec_digits_len(a);
    lemma_dec_digits_len(b);
    if a < 10 && b < 10 {
        assert(dec_digits(a) =~= seq![digit_char(a)]);
        assert(dec_digits(b) =~= seq![digit_char(b)]);
        assert(digit_char(a) == dec_digits(a)[0]);
        assert(digit_char(b) == dec_digits(b)[0]);
        lemma_digit_char_injective(a, b);
    } else if a < 10 {
        lemma_dec_digits_len(b / 10);
        assert(dec_digits(b).len() >= 2);
    } else if b < 10 {
        lemma_dec_digits_len(a / 10);
        assert(dec_digits(a).len() >= 2);
    } else {
        let la = dec_digits(a).len();
        assert(dec_digits(a).last() == digit_char(a % 10));
        assert(dec_digits(b).last() == digit_char(b % 10));
        lemma_digit_char_injective(a % 10, b % 10);
        assert(dec_digits(a / 10) =~= dec_digits(a).subrange(0, la - 1));
        assert(dec_digits(b / 10) =~= dec_digits(b).subrange(0, la - 1));
        lemma_dec_digits_injective(a / 10, b / 10);
    }
}

/// Within a session, distinct file indices give distinct base names:
/// no base name is ever reused by two output files.
pub proof fn lemma_base_names_distinct(stem: Seq<char>, session_id: u64, i: u64, j: u64)
    requires
        i != j,
    ensures
        base_name_model(stem, session_id, i) != base_name_model(stem, session_id, j),
{
    let prefix = sanitized(stem) + seq!['_'] + dec_digits(session_id as int) + seq!['_'];
    let ni = base_name_model(stem, session_id, i);
    let nj = base_name_model(stem, session_id, j);
    assert(ni =~= prefix + dec_digits(i as int));
    assert(nj =~= prefix + dec_digits(j as int));
    if ni == nj {
        let p = prefix.len();
        assert(dec_digits(i as int) =~= ni.subrange(p as int, ni.len() as int));
        assert(dec_digits(j as int) =~= nj.subrange(p as int, nj.len() as int));
        lemma_dec_digits_injective(i as int, j as int);
    }
}

} // verus!
