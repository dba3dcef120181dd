//! Text building blocks: decimal numerals and character-level helpers.

use vstd::prelude::*;

verus! {

/// The ASCII digit character for a value below ten.
pub open spec fn digit_char(d: nat) -> char {
    ((48 + d) as u32) as char
}

/// The decimal numeral of a natural number, without leading zeros.
pub open spec fn decimal(n: nat) -> Seq<char>
    decreases n,
{
    if n < 10 {
        seq![digit_char(n)]
    } else {
        decimal(n / 10).push(digit_char(n % 10))
    }
}

/// The decimal numeral of an integer, with a leading '-' when it is negative.
pub open spec fn signed_decimal(n: int) -> Seq<char> {
    if n < 0 {
        seq!['-'] + decimal((-n) as nat)
    } else {
        decimal(n as nat)
    }
}

/// Appends one character (`String::push`).
#[verifier::external_body]
pub fn push_char(s: &mut String, c: char)
    ensures
        final(s)@ == old(s)@.push(c),
{
    s.push(c);
}

/// Appends the decimal numeral of `n`.
pub fn push_decimal(s: &mut String, n: u64)
    ensures
        final(s)@ == old(s)@ + decimal(n as nat),
    decreases n,
{
    if n < 10 {
        let c = ((48u8 + n as u8) as char);
        assert(c == digit_char(n as nat));
        push_char(s, c);
        assert(old(s)@.push(c) =~= old(s)@ + seq![c]);
    } else {
        push_decimal(s, n / 10);
        let d: u64 = n % 10;
        let c = ((48u8 + d as u8) as char);
        push_char(s, c);
        assert(decimal(n as nat) == decimal((n / 10) as nat).push(digit_char((n % 10) as nat)));
        assert(old(s)@ + decimal((n / 10) as nat).push(c) =~= (old(s)@ + decimal((n / 10) as nat)).push(c));
    }
}

/// Appends `n` in decimal, with a leading '-' when it is negative.
pub fn push_signed_decimal(s: &mut String, n: i64)
    ensures
        final(s)@ == old(s)@ + signed_decimal(n as int),
{
    if n < 0 {
        push_char(s, '-');
        let magnitude: u64 = if n == i64::MIN {
            9223372036854775808u64
        } else {
            (-n) as u64
        };
        push_decimal(s, magnitude);
        assert(old(s)@.push('-') + decimal(magnitude as nat) =~= old(s)@ + (seq!['-'] + decimal(magnitude as nat)));
    } else {
        push_decimal(s, n as u64);
    }
}

/// Appends a value below one hundred as exactly two digits.
pub fn push_two_digits(s: &mut String, n: u64)
    requires
        n < 100,
    ensures
        final(s)@ == old(s)@ + seq![digit_char((n / 10) as nat), digit_char((n % 10) as nat)],
{
    let hi = ((48u8 + (n / 10) as u8) as char);
    let lo = ((48u8 + (n % 10) as u8) as char);
    push_char(s, hi);
    push_char(s, lo);
    assert(old(s)@.push(hi).push(lo) =~= old(s)@ + seq![hi, lo]);
}

/// The characters of a string slice, in order.
pub fn chars_of(s: &str) -> (res: Vec<char>)
    ensures
        res@ == s@,
{
    broadcast use vstd::string::group_string_axioms;
    let mut v: Vec<char> = Vec::new();
    for c in it: s.chars()
        invariant
            v@ == it.seq().take(it.index()),
    {
        v.push(c);
    }
    assert(v@ =~= s@);
    v
}

/// `s` with every occurrence of the non-empty `pat` replaced by `rep`,
/// occurrences taken from left to right without overlapping (as `str::replace`).
pub open spec fn replace_all(s: Seq<char>, pat: Seq<char>, rep: Seq<char>) -> Seq<char>
    recommends
        pat.len() > 0,
    decreases s.len(),
{
    if s.len() == 0 || pat.len() == 0 {
        s
    } else if pat.is_prefix_of(s) {
        rep + replace_all(s.skip(pat.len() as int), pat, rep)
    } else {
        seq![s[0]] + replace_all(s.skip(1), pat, rep)
    }
}

/// Law: a text shorter than the pattern is left as it is.
pub proof fn lemma_replace_all_shorter_text(s: Seq<char>, pat: Seq<char>, rep: Seq<char>)
    requires
        s.len() < pat.len(),
    ensures
        replace_all(s, pat, rep) == s,
    decreases s.len(),
{
    if s.len() > 0 {
        lemma_replace_all_shorter_text(s.skip(1), pat, rep);
        assert(seq![s[0]] + s.skip(1) =~= s);
    }
}

/// Law: a text without the first character of the pattern is left as it is.
pub proof fn lemma_replace_all_without_first_char(s: Seq<char>, pat: Seq<char>, rep: Seq<char>)
    requires
        pat.len() > 0,
        forall|i: int| 0 <= i < s.len() ==> s[i] != pat[0],
    ensures
        replace_all(s, pat, rep) == s,
    decreases s.len(),
{
    if s.len() > 0 {
        assert(!pat.is_prefix_of(s)) by {
            if pat.is_prefix_of(s) {
                assert(s.subrange(0, pat.len() as int)[0] == pat[0]);
            }
        }
        lemma_replace_all_without_first_char(s.skip(1), pat, rep);
        assert(seq![s[0]] + s.skip(1) =~= s);
    }
}

/// Law: a text that is exactly the pattern becomes the replacement, whatever
/// the replacement is (the empty text included).
pub proof fn lemma_replace_all_whole_pattern(pat: Seq<char>, rep: Seq<char>)
    requires
        pat.len() > 0,
    ensures
        replace_all(pat, pat, rep) == rep,
{
    assert(pat.is_prefix_of(pat)) by {
        assert(pat.subrange(0, pat.len() as int) =~= pat);
    }
    assert(pat.skip(pat.len() as int) =~= Seq::<char>::empty());
    assert(replace_all(Seq::<char>::empty(), pat, rep) == Seq::<char>::empty());
    assert(rep + Seq::<char>::empty() =~= rep);
}

/// Whether `pat` occurs in `s` at position `i`.
fn occurs_at(s: &Vec<char>, pat: &Vec<char>, i: usize) -> (res: bool)
    requires
        i <= s@.len(),
    ensures
        res == pat@.is_prefix_of(s@.skip(i as int)),
{
    let n = s.len();
    let m = pat.len();
    if m > n - i {
        return false;
    }
    let mut k: usize = 0;
    while k < m
        invariant
            m == pat@.len(),
            n == s@.len(),
            i + m <= n,
            k <= m,
            forall|j: int| 0 <= j < k ==> s@[i + j] == pat@[j],
        decreases m - k,
    {
        if s[i + k] != pat[k] {
            assert(s@.skip(i as int).subrange(0, m as int)[k as int] != pat@[k as int]);
            return false;
        }
        k = k + 1;
    }
    assert(pat@ =~= s@.skip(i as int).subrange(0, m as int));
    true
}

/// Replaces every occurrence of `pat` in `s` by `rep` (as `str::replace`).
pub fn replace_text(s: &str, pat: &str, rep: &str) -> (res: String)
    requires
        pat@.len() > 0,
    ensures
        res@ == replace_all(s@, pat@, rep@),
{
    let sv = chars_of(s);
    let pv = chars_of(pat);
    let n = sv.len();
    let m = pv.len();
    let mut res = String::new();
    let mut i: usize = 0;
    assert(sv@.skip(0) =~= sv@);
    assert(res@ + replace_all(s@, pat@, rep@) =~= replace_all(s@, pat@, rep@));
    while i < n
        invariant
            n == sv@.len(),
            m == pv@.len(),
            m > 0,
            sv@ == s@,
            pv@ == pat@,
            i <= n,
            res@ + replace_all(sv@.skip(i as int), pv@, rep@) == replace_all(s@, pat@, rep@),
        decreases n - i,
    {
        let ghost rest = sv@.skip(i as int);
        let ghost before = res@;
        if occurs_at(&sv, &pv, i) {
            assert(rest.skip(m as int) =~= sv@.skip(i + m));
            res.append(rep);
            assert(res@ + replace_all(sv@.skip(i + m), pv@, rep@)
                =~= before + (rep@ + replace_all(rest.skip(m as int), pv@, rep@)));
            i = i + m;
        } else {
            assert(rest.skip(1) =~= sv@.skip(i + 1));
            let c = sv[i];
            assert(rest[0] == c);
            push_char(&mut res, c);
            assert(res@ + replace_all(sv@.skip(i + 1), pv@, rep@)
                =~= before + (seq![c] + replace_all(rest.skip(1), pv@, rep@)));
            i = i + 1;
        }
    }
    assert(sv@.skip(n as int) =~= Seq::<char>::empty());
    res
}

/// A copy of an optional text.
pub fn clone_optional_text(t: &Option<String>) -> (res: Option<String>)
    ensures
        res.deep_view() == t.deep_view(),
{
    match t {
        Some(s) => Some(s.clone()),
        None => None,
    }
}

} // verus!
