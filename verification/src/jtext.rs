//! Text primitives for the line-delimited JSON wire format.
//!
//! The codec works over character buffers. This module holds the
//! conversions between `&str`/`String` and `Vec<char>`, decimal number
//! printing and parsing, and JSON string-body escaping, together with the
//! lemmas that make the printers and parsers inverse to each other.

use vstd::prelude::*;
use vstd::string::StrSliceExecFns;

verus! {

// ---------------------------------------------------------------------------
// Wire boundary: &str / String <-> Vec<char>
// ---------------------------------------------------------------------------

/// Relies on String::push: appends exactly the given character.
#[verifier::external_body]
fn push_char(s: &mut String, c: char)
    ensures
        final(s)@ == old(s)@.push(c),
{
    s.push(c);
}

/// Builds the wire string for a finished character buffer.
pub fn to_wire(v: &Vec<char>) -> (r: String)
    ensures
        r@ == v@,
{
    let mut s = String::new();
    let mut i: usize = 0;
    while i < v.len()
        invariant
            i <= v.len(),
            s@ == v@.subrange(0, i as int),
        decreases v.len() - i,
    {
        push_char(&mut s, v[i]);
        assert(v@.subrange(0, i + 1 as int) =~= v@.subrange(0, i as int).push(v@[i as int]));
        i = i + 1;
    }
    assert(v@.subrange(0, v.len() as int) =~= v@);
    s
}

/// Splits a wire line into its characters.
pub fn from_wire(s: &str) -> (r: Vec<char>)
    ensures
        r@ == s@,
{
    let n = s.unicode_len();
    let mut v: Vec<char> = Vec::new();
    let mut i: usize = 0;
    while i < n
        invariant
            i <= n,
            n == s@.len(),
            v@ == s@.subrange(0, i as int),
        decreases n - i,
    {
        let c = s.get_char(i);
        v.push(c);
        assert(s@.subrange(0, i + 1 as int) =~= s@.subrange(0, i as int).push(s@[i as int]));
        i = i + 1;
    }
    assert(s@.subrange(0, n as int) =~= s@);
    v
}

// ---------------------------------------------------------------------------
// Decimal digits
// ---------------------------------------------------------------------------

pub open spec fn is_digit(c: char) -> bool {
    '0' <= c && c <= '9'
}

pub open spec fn digit_val(c: char) -> nat {
    (c as int - '0' as int) as nat
}

pub open spec fn digit_char(d: nat) -> char {
    if d == 0 { '0' }
    else if d == 1 { '1' }
    else if d == 2 { '2' }
    else if d == 3 { '3' }
    else if d == 4 { '4' }
    else if d == 5 { '5' }
    else if d == 6 { '6' }
    else if d == 7 { '7' }
    else if d == 8 { '8' }
    else { '9' }
}

/// The decimal form of a number, most significant digit first.
pub open spec fn dec(n: nat) -> Seq<char>
    decreases n,
{
    if n < 10 {
        seq![digit_char(n)]
    } else {
        dec(n / 10).push(digit_char(n % 10))
    }
}

/// The value of a digit sequence read as a decimal number.
pub open spec fn digits_val(ds: Seq<char>) -> nat
    decreases ds.len(),
{
    if ds.len() == 0 {
        0
    } else {
        digits_val(ds.drop_last()) * 10 + digit_val(ds.last())
    }
}

pub proof fn lemma_digit_char_val(d: nat)
    requires
        d < 10,
    ensures
        is_digit(digit_char(d)),
        digit_val(digit_char(d)) == d,
{
}

/// `dec` produces only digits and reads back to the same value.
pub proof fn lemma_dec(n: nat)
    ensures
        dec(n).len() >= 1,
        forall|i: int| 0 <= i < dec(n).len() ==> is_digit(#[trigger] dec(n)[i]),
        digits_val(dec(n)) == n,
        !is_digit(dec(n)[0]) == false,
    decreases n,
{
    if n < 10 {
        lemma_digit_char_val(n);
        assert(dec(n) =~= seq![digit_char(n)]);
        assert(dec(n).drop_last() =~= Seq::<char>::empty());
        assert(dec(n).last() == digit_char(n));
        reveal_with_fuel(digits_val, 2);
        assert(digits_val(dec(n)) == 0 * 10 + digit_val(digit_char(n)));
    } else {
        lemma_dec(n / 10);
        lemma_digit_char_val(n % 10);
        assert(dec(n).drop_last() =~= dec(n / 10));
        assert(dec(n).last() == digit_char(n % 10));
        assert(digits_val(dec(n)) == digits_val(dec(n / 10)) * 10 + digit_val(digit_char(n % 10)));
        assert(digits_val(dec(n)) == (n / 10) * 10 + n % 10);
        assert((n / 10) * 10 + n % 10 == n) by (nonlinear_arith);
    }
}

/// Splits a sequence into its maximal digit prefix and the remainder.
pub open spec fn split_digits(s: Seq<char>) -> (Seq<char>, Seq<char>)
    decreases s.len(),
{
    if s.len() > 0 && is_digit(s[0]) {
        let (d, r) = split_digits(s.drop_first());
        (seq![s[0]] + d, r)
    } else {
        (Seq::empty(), s)
    }
}

/// `split_digits` cuts exactly at the first non-digit position.
pub proof fn lemma_split_digits_at(s: Seq<char>, k: int)
    requires
        0 <= k <= s.len(),
        forall|i: int| 0 <= i < k ==> is_digit(#[trigger] s[i]),
        k == s.len() || !is_digit(s[k]),
    ensures
        split_digits(s).0 == s.subrange(0, k),
        split_digits(s).1 == s.skip(k),
    decreases k,
{
    if k == 0 {
        assert(split_digits(s).0 =~= s.subrange(0, 0));
        assert(split_digits(s).1 =~= s.skip(0));
    } else {
        let t = s.drop_first();
        assert(forall|i: int| 0 <= i < k - 1 ==> #[trigger] t[i] == s[i + 1]);
        lemma_split_digits_at(t, k - 1);
        assert(seq![s[0]] + t.subrange(0, k - 1) =~= s.subrange(0, k));
        assert(t.skip(k - 1) =~= s.skip(k));
    }
}

/// Appending more digits can only grow the value read.
pub proof fn lemma_digits_val_prefix_le(ds: Seq<char>, k: int)
    requires
        0 <= k <= ds.len(),
    ensures
        digits_val(ds.subrange(0, k)) <= digits_val(ds),
    decreases ds.len() - k,
{
    if k == ds.len() {
        assert(ds.subrange(0, k) =~= ds);
    } else {
        let e = ds.subrange(0, k + 1);
        assert(e.drop_last() =~= ds.subrange(0, k));
        assert(digits_val(ds.subrange(0, k)) <= digits_val(e));
        lemma_digits_val_prefix_le(ds, k + 1);
    }
}

/// Parses a decimal `u64`, consuming the maximal digit run.
pub open spec fn jp_u64(s: Seq<char>) -> Option<(u64, Seq<char>)> {
    let (ds, r) = split_digits(s);
    if ds.len() == 0 || digits_val(ds) > u64::MAX {
        None
    } else {
        Some(((digits_val(ds) as u64), r))
    }
}

/// Printing a `u64` and parsing it back is the identity, whenever the
/// following text does not begin with a digit.
pub proof fn lemma_jp_u64_rt(n: u64, rest: Seq<char>)
    requires
        rest.len() == 0 || !is_digit(rest[0]),
    ensures
        jp_u64(dec(n as nat) + rest) == Some((n, rest)),
{
    lemma_dec(n as nat);
    let s = dec(n as nat) + rest;
    let k = dec(n as nat).len() as int;
    assert(forall|i: int| 0 <= i < k ==> is_digit(#[trigger] s[i]));
    lemma_split_digits_at(s, k);
    assert(s.subrange(0, k) =~= dec(n as nat));
    assert(s.skip(k) =~= rest);
}

// ---------------------------------------------------------------------------
// Signed decimal
// ---------------------------------------------------------------------------

/// The decimal form of a signed 32-bit value.
pub open spec fn je_i32(v: i32) -> Seq<char> {
    if v < 0 {
        seq!['-'] + dec((-(v as int)) as nat)
    } else {
        dec(v as nat)
    }
}

/// Parses a decimal `i32`, with an optional leading minus sign.
pub open spec fn jp_i32(s: Seq<char>) -> Option<(i32, Seq<char>)> {
    if s.len() > 0 && s[0] == '-' {
        let (ds, r) = split_digits(s.drop_first());
        if ds.len() == 0 || digits_val(ds) > 0x8000_0000 || digits_val(ds) == 0 {
            None
        } else {
            Some(((-(digits_val(ds) as int)) as i32, r))
        }
    } else {
        let (ds, r) = split_digits(s);
        if ds.len() == 0 || digits_val(ds) > 0x7fff_ffff {
            None
        } else {
            Some(((digits_val(ds) as i32), r))
        }
    }
}

pub proof fn lemma_jp_i32_rt(v: i32, rest: Seq<char>)
    requires
        rest.len() == 0 || !is_digit(rest[0]),
    ensures
        jp_i32(je_i32(v) + rest) == Some((v, rest)),
{
    if v < 0 {
        let m = (-(v as int)) as nat;
        lemma_dec(m);
        let s = je_i32(v) + rest;
        assert(s[0] == '-');
        assert(!is_digit('-'));
        let t = s.drop_first();
        assert(t =~= dec(m) + rest);
        let k = dec(m).len() as int;
        assert(forall|i: int| 0 <= i < k ==> is_digit(#[trigger] t[i]));
        lemma_split_digits_at(t, k);
        assert(t.subrange(0, k) =~= dec(m));
        assert(t.skip(k) =~= rest);
    } else {
        lemma_dec(v as nat);
        let s = je_i32(v) + rest;
        let k = dec(v as nat).len() as int;
        assert(forall|i: int| 0 <= i < k ==> is_digit(#[trigger] s[i]));
        lemma_split_digits_at(s, k);
        assert(s.subrange(0, k) =~= dec(v as nat));
        assert(s.skip(k) =~= rest);
    }
}

// ---------------------------------------------------------------------------
// Decimal fractions in thousandths
// ---------------------------------------------------------------------------

/// Three zero-padded digits for a value below one thousand.
pub open spec fn pad3(f: nat) -> Seq<char> {
    seq![digit_char(f / 100), digit_char((f / 10) % 10), digit_char(f % 10)]
}

/// The wire form of a non-negative proportion held as thousandths:
/// whole part, a dot, then exactly three fraction digits.
pub open spec fn je_milli(m: nat) -> Seq<char> {
    dec(m / 1000) + seq!['.'] + pad3(m % 1000)
}

/// The wire form of a signed proportion held as thousandths.
pub open spec fn je_milli_i32(v: i32) -> Seq<char> {
    if v < 0 {
        seq!['-'] + je_milli((-(v as int)) as nat)
    } else {
        je_milli(v as nat)
    }
}

/// Reads three digit characters as a value below one thousand.
pub open spec fn frac3_val(s: Seq<char>) -> nat {
    digit_val(s[0]) * 100 + digit_val(s[1]) * 10 + digit_val(s[2])
}

/// Parses an unsigned decimal fraction into thousandths: a digit run, a
/// dot, then exactly three digits.
pub open spec fn jp_milli(s: Seq<char>) -> Option<(u64, Seq<char>)> {
    let (ds, r) = split_digits(s);
    if ds.len() == 0 || digits_val(ds) > 0xffff_ffff {
        None
    } else if r.len() >= 4 && r[0] == '.' && is_digit(r[1]) && is_digit(r[2]) && is_digit(r[3])
        && (r.len() == 4 || !is_digit(r[4])) {
        let m = digits_val(ds) * 1000 + frac3_val(r.subrange(1, 4));
        if m > u64::MAX {
            None
        } else {
            Some(((m as u64), r.skip(4)))
        }
    } else {
        None
    }
}

/// Parses a signed decimal fraction into thousandths.
pub open spec fn jp_milli_i32(s: Seq<char>) -> Option<(i32, Seq<char>)> {
    if s.len() > 0 && s[0] == '-' {
        match jp_milli(s.drop_first()) {
            None => None,
            Some((m, r)) => {
                if m > 0x8000_0000 || m == 0 {
                    None
                } else {
                    Some(((-(m as int)) as i32, r))
                }
            },
        }
    } else {
        match jp_milli(s) {
            None => None,
            Some((m, r)) => {
                if m > 0x7fff_ffff {
                    None
                } else {
                    Some(((m as i32), r))
                }
            },
        }
    }
}

pub proof fn lemma_pad3_val(f: nat)
    requires
        f < 1000,
    ensures
        pad3(f).len() == 3,
        forall|i: int| 0 <= i < 3 ==> is_digit(#[trigger] pad3(f)[i]),
        frac3_val(pad3(f)) == f,
{
    lemma_digit_char_val(f / 100);
    lemma_digit_char_val((f / 10) % 10);
    lemma_digit_char_val(f % 10);
    assert((f / 100) * 100 + ((f / 10) % 10) * 10 + f % 10 == f) by (nonlinear_arith)
        requires f < 1000;
}

pub proof fn lemma_jp_milli_rt(m: u32, rest: Seq<char>)
    requires
        rest.len() == 0 || !is_digit(rest[0]),
    ensures
        jp_milli(je_milli(m as nat) + rest) == Some((m as u64, rest)),
{
    let w = (m as nat) / 1000;
    let f = (m as nat) % 1000;
    lemma_dec(w);
    lemma_pad3_val(f);
    let s = je_milli(m as nat) + rest;
    let k = dec(w).len() as int;
    assert(forall|i: int| 0 <= i < k ==> is_digit(#[trigger] s[i]));
    assert(s[k] == '.');
    assert(!is_digit('.'));
    lemma_split_digits_at(s, k);
    assert(s.subrange(0, k) =~= dec(w));
    let r = s.skip(k);
    assert(r =~= seq!['.'] + pad3(f) + rest);
    assert(r[0] == '.');
    assert(r[1] == pad3(f)[0]);
    assert(r[2] == pad3(f)[1]);
    assert(r[3] == pad3(f)[2]);
    assert(r.len() == 4 || !is_digit(r[4]));
    assert(r.subrange(1, 4) =~= pad3(f));
    assert(digits_val(dec(w)) * 1000 + frac3_val(pad3(f)) == m as nat);
    assert(r.skip(4) =~= rest);
}

pub proof fn lemma_jp_milli_i32_rt(v: i32, rest: Seq<char>)
    requires
        rest.len() == 0 || !is_digit(rest[0]),
    ensures
        jp_milli_i32(je_milli_i32(v) + rest) == Some((v, rest)),
{
    if v < 0 {
        let m = (-(v as int)) as nat;
        let s = je_milli_i32(v) + rest;
        assert(s[0] == '-');
        assert(s.drop_first() =~= je_milli(m) + rest);
        assert(m <= 0x8000_0000);
        lemma_jp_milli_rt_nat(m, rest);
    } else {
        let s = je_milli_i32(v) + rest;
        assert(s.len() > 0 ==> s[0] != '-' || s.len() == 0) by {
            lemma_dec((v as nat) / 1000);
            assert(s[0] == dec((v as nat) / 1000)[0]);
            assert(is_digit(s[0]));
        }
        assert(s[0] != '-');
        assert(s =~= je_milli(v as nat) + rest);
        lemma_jp_milli_rt_nat(v as nat, rest);
    }
}

/// Variant of the unsigned fraction round trip for any value that fits.
proof fn lemma_jp_milli_rt_nat(m: nat, rest: Seq<char>)
    requires
        m <= u32::MAX,
        rest.len() == 0 || !is_digit(rest[0]),
    ensures
        jp_milli(je_milli(m) + rest) == Some((m as u64, rest)),
{
    lemma_jp_milli_rt(m as u32, rest);
}

// ---------------------------------------------------------------------------
// JSON string bodies with escapes
// ---------------------------------------------------------------------------

/// The wire form of one character inside a JSON string: quotes and
/// backslashes take a backslash escape, everything else passes through.
pub open spec fn esc_char(c: char) -> Seq<char> {
    if c == '"' {
        seq!['\\', '"']
    } else if c == '\\' {
        seq!['\\', '\\']
    } else {
        seq![c]
    }
}

/// The wire form of a JSON string body, without the surrounding quotes.
pub open spec fn je_strbody(t: Seq<char>) -> Seq<char>
    decreases t.len(),
{
    if t.len() == 0 {
        Seq::empty()
    } else {
        esc_char(t[0]) + je_strbody(t.drop_first())
    }
}

/// The quoted wire form of a JSON string.
pub open spec fn je_str(t: Seq<char>) -> Seq<char> {
    seq!['"'] + je_strbody(t) + seq!['"']
}

/// Parses a JSON string body up to, but not including, the closing quote.
/// Only quote and backslash escapes are understood; other characters pass
/// through unchanged.
pub open spec fn jp_strbody(s: Seq<char>) -> Option<(Seq<char>, Seq<char>)>
    decreases s.len(),
{
    if s.len() == 0 {
        None
    } else if s[0] == '"' {
        Some((Seq::empty(), s))
    } else if s[0] == '\\' {
        if s.len() >= 2 && (s[1] == '"' || s[1] == '\\') {
            match jp_strbody(s.skip(2)) {
                None => None,
                Some((t, r)) => Some((seq![s[1]] + t, r)),
            }
        } else {
            None
        }
    } else {
        match jp_strbody(s.drop_first()) {
            None => None,
            Some((t, r)) => Some((seq![s[0]] + t, r)),
        }
    }
}

/// Parses a quoted JSON string.
pub open spec fn jp_str(s: Seq<char>) -> Option<(Seq<char>, Seq<char>)> {
    if s.len() > 0 && s[0] == '"' {
        match jp_strbody(s.drop_first()) {
            None => None,
            Some((t, r)) => {
                // jp_strbody stops at the closing quote
                if r.len() > 0 && r[0] == '"' {
                    Some((t, r.drop_first()))
                } else {
                    None
                }
            },
        }
    } else {
        None
    }
}

/// Printing a string body and parsing it back is the identity, whenever
/// the following text begins with the closing quote.
pub proof fn lemma_strbody_rt(t: Seq<char>, rest: Seq<char>)
    requires
        rest.len() > 0,
        rest[0] == '"',
    ensures
        jp_strbody(je_strbody(t) + rest) == Some((t, rest)),
    decreases t.len(),
{
    let s = je_strbody(t) + rest;
    if t.len() == 0 {
        assert(s =~= rest);
    } else {
        let c = t[0];
        lemma_strbody_rt(t.drop_first(), rest);
        if c == '"' || c == '\\' {
            assert(s[0] == '\\');
            assert(s[1] == c);
            assert(s.skip(2) =~= je_strbody(t.drop_first()) + rest);
            assert(seq![c] + t.drop_first() =~= t);
        } else {
            assert(s[0] == c);
            assert(s.drop_first() =~= je_strbody(t.drop_first()) + rest);
            assert(seq![c] + t.drop_first() =~= t);
        }
    }
}

/// Printing a quoted string and parsing it back is the identity.
pub proof fn lemma_jp_str_rt(t: Seq<char>, rest: Seq<char>)
    ensures
        jp_str(je_str(t) + rest) == Some((t, rest)),
{
    let s = je_str(t) + rest;
    assert(s[0] == '"');
    let q = seq!['"'] + rest;
    assert(q[0] == '"');
    lemma_strbody_rt(t, q);
    assert(s.drop_first() =~= je_strbody(t) + q);
    assert(q.drop_first() =~= rest);
}

// ---------------------------------------------------------------------------
// Fixed literal text
// ---------------------------------------------------------------------------

/// Consumes a fixed literal prefix.
pub open spec fn jp_lit(s: Seq<char>, lit: Seq<char>) -> Option<Seq<char>> {
    if lit.len() <= s.len() && s.subrange(0, lit.len() as int) == lit {
        Some(s.skip(lit.len() as int))
    } else {
        None
    }
}

pub proof fn lemma_jp_lit(lit: Seq<char>, rest: Seq<char>)
    ensures
        jp_lit(lit + rest, lit) == Some(rest),
{
    let s = lit + rest;
    assert(s.subrange(0, lit.len() as int) =~= lit);
    assert(s.skip(lit.len() as int) =~= rest);
}

/// A literal does not match where some character of it differs from the
/// input.
pub proof fn lemma_lit_mismatch(s: Seq<char>, lit: Seq<char>, i: int)
    requires
        0 <= i < lit.len(),
        i < s.len(),
        s[i] != lit[i],
    ensures
        jp_lit(s, lit) is None,
{
    if lit.len() <= s.len() && s.subrange(0, lit.len() as int) == lit {
        assert(s.subrange(0, lit.len() as int)[i] == s[i]);
    }
}

// ---------------------------------------------------------------------------
// Booleans and optional numbers
// ---------------------------------------------------------------------------

pub open spec fn je_bool(b: bool) -> Seq<char> {
    if b {
        "true"@
    } else {
        "false"@
    }
}

pub open spec fn jp_bool(s: Seq<char>) -> Option<(bool, Seq<char>)> {
    match jp_lit(s, "true"@) {
        Some(r) => Some((true, r)),
        None => match jp_lit(s, "false"@) {
            Some(r) => Some((false, r)),
            None => None,
        },
    }
}

pub proof fn lemma_jp_bool_rt(b: bool, rest: Seq<char>)
    ensures
        jp_bool(je_bool(b) + rest) == Some((b, rest)),
{
    reveal_strlit("true");
    reveal_strlit("false");
    if b {
        lemma_jp_lit("true"@, rest);
    } else {
        let s = "false"@ + rest;
        lemma_lit_mismatch(s, "true"@, 0);
        lemma_jp_lit("false"@, rest);
    }
}

/// An optional id: `null` or a decimal number.
pub open spec fn je_opt_u64(o: Option<u64>) -> Seq<char> {
    match o {
        None => "null"@,
        Some(n) => dec(n as nat),
    }
}

pub open spec fn jp_opt_u64(s: Seq<char>) -> Option<(Option<u64>, Seq<char>)> {
    match jp_lit(s, "null"@) {
        Some(r) => Some((None, r)),
        None => match jp_u64(s) {
            Some((n, r)) => Some((Some(n), r)),
            None => None,
        },
    }
}

pub proof fn lemma_jp_opt_u64_rt(o: Option<u64>, rest: Seq<char>)
    requires
        rest.len() == 0 || !is_digit(rest[0]),
    ensures
        jp_opt_u64(je_opt_u64(o) + rest) == Some((o, rest)),
{
    reveal_strlit("null");
    match o {
        None => {
            lemma_jp_lit("null"@, rest);
        },
        Some(n) => {
            let s = dec(n as nat) + rest;
            lemma_dec(n as nat);
            assert(s[0] == dec(n as nat)[0]);
            lemma_lit_mismatch(s, "null"@, 0);
            lemma_jp_u64_rt(n, rest);
        },
    }
}

// ---------------------------------------------------------------------------
// Length bounds: every successful parse consumes at least one character.
// The recursive list parsers lean on these for termination.
// ---------------------------------------------------------------------------

pub proof fn lemma_split_digits_len(s: Seq<char>)
    ensures
        split_digits(s).0.len() + split_digits(s).1.len() == s.len(),
    decreases s.len(),
{
    if s.len() > 0 && is_digit(s[0]) {
        lemma_split_digits_len(s.drop_first());
    }
}

pub proof fn lemma_jp_u64_len(s: Seq<char>)
    requires
        jp_u64(s) is Some,
    ensures
        jp_u64(s)->Some_0.1.len() < s.len(),
{
    lemma_split_digits_len(s);
}

pub proof fn lemma_jp_bool_len(s: Seq<char>)
    requires
        jp_bool(s) is Some,
    ensures
        jp_bool(s)->Some_0.1.len() < s.len(),
{
    reveal_strlit("true");
    reveal_strlit("false");
}

pub proof fn lemma_jp_opt_u64_len(s: Seq<char>)
    requires
        jp_opt_u64(s) is Some,
    ensures
        jp_opt_u64(s)->Some_0.1.len() < s.len(),
{
    reveal_strlit("null");
    if jp_lit(s, "null"@) is None {
        lemma_jp_u64_len(s);
    }
}

pub proof fn lemma_jp_strbody_len(s: Seq<char>)
    requires
        jp_strbody(s) is Some,
    ensures
        jp_strbody(s)->Some_0.1.len() <= s.len(),
    decreases s.len(),
{
    if s.len() == 0 {
    } else if s[0] == '"' {
    } else if s[0] == '\\' {
        lemma_jp_strbody_len(s.skip(2));
    } else {
        lemma_jp_strbody_len(s.drop_first());
    }
}

pub proof fn lemma_jp_str_len(s: Seq<char>)
    requires
        jp_str(s) is Some,
    ensures
        jp_str(s)->Some_0.1.len() + 2 <= s.len(),
{
    lemma_jp_strbody_len(s.drop_first());
}

// ---------------------------------------------------------------------------
// Executable printers
// ---------------------------------------------------------------------------

/// Appends a fixed literal to the output buffer.
pub fn pe_lit(out: &mut Vec<char>, lit: &str)
    ensures
        final(out)@ == old(out)@ + lit@,
{
    let n = lit.unicode_len();
    let mut i: usize = 0;
    while i < n
        invariant
            i <= n,
            n == lit@.len(),
            out@ == old(out)@ + lit@.subrange(0, i as int),
        decreases n - i,
    {
        let c = lit.get_char(i);
        out.push(c);
        assert(old(out)@ + lit@.subrange(0, i + 1 as int) =~= (old(out)@ + lit@.subrange(
            0,
            i as int,
        )).push(lit@[i as int]));
        i = i + 1;
    }
    assert(old(out)@ + lit@.subrange(0, n as int) =~= old(out)@ + lit@);
}

/// The character for one decimal digit.
fn digit_char_exec(d: u64) -> (c: char)
    requires
        d < 10,
    ensures
        c == digit_char(d as nat),
{
    if d == 0 { '0' }
    else if d == 1 { '1' }
    else if d == 2 { '2' }
    else if d == 3 { '3' }
    else if d == 4 { '4' }
    else if d == 5 { '5' }
    else if d == 6 { '6' }
    else if d == 7 { '7' }
    else { if d == 8 { '8' } else { '9' } }
}

/// Appends the decimal form of a `u64`.
pub fn pe_u64(out: &mut Vec<char>, n: u64)
    ensures
        final(out)@ == old(out)@ + dec(n as nat),
    decreases n,
{
    if n < 10 {
        let c = digit_char_exec(n);
        out.push(c);
        assert(old(out)@ + dec(n as nat) =~= old(out)@.push(digit_char(n as nat)));
    } else {
        pe_u64(out, n / 10);
        let c = digit_char_exec(n % 10);
        out.push(c);
        assert(old(out)@ + dec(n as nat) =~= (old(out)@ + dec((n / 10) as nat)).push(
            digit_char((n % 10) as nat),
        ));
    }
}

/// Appends the decimal form of an `i32`.
pub fn pe_i32(out: &mut Vec<char>, v: i32)
    ensures
        final(out)@ == old(out)@ + je_i32(v),
{
    if v < 0 {
        out.push('-');
        let m: u64 = (-(v as i64)) as u64;
        assert(m as nat == (-(v as int)) as nat);
        pe_u64(out, m);
        assert(old(out)@ + je_i32(v) =~= (old(out)@.push('-')) + dec(m as nat));
    } else {
        pe_u64(out, v as u64);
    }
}

/// Appends the wire form of a proportion in thousandths.
pub fn pe_milli(out: &mut Vec<char>, m: u64)
    ensures
        final(out)@ == old(out)@ + je_milli(m as nat),
{
    pe_u64(out, m / 1000);
    out.push('.');
    let f: u64 = m % 1000;
    let c1 = digit_char_exec(f / 100);
    let c2 = digit_char_exec((f / 10) % 10);
    let c3 = digit_char_exec(f % 10);
    out.push(c1);
    out.push(c2);
    out.push(c3);
    assert(old(out)@ + je_milli(m as nat) =~= old(out)@ + dec((m / 1000) as nat) + seq!['.']
        + seq![
        digit_char((f / 100) as nat),
        digit_char(((f / 10) % 10) as nat),
        digit_char((f % 10) as nat),
    ]);
}

/// Appends the wire form of a signed proportion in thousandths.
pub fn pe_milli_i32(out: &mut Vec<char>, v: i32)
    ensures
        final(out)@ == old(out)@ + je_milli_i32(v),
{
    if v < 0 {
        out.push('-');
        let m: u64 = (-(v as i64)) as u64;
        assert(m as nat == (-(v as int)) as nat);
        pe_milli(out, m);
        assert(old(out)@ + je_milli_i32(v) =~= (old(out)@.push('-')) + je_milli(m as nat));
    } else {
        pe_milli(out, v as u64);
    }
}

/// Appends `true` or `false`.
pub fn pe_bool(out: &mut Vec<char>, b: bool)
    ensures
        final(out)@ == old(out)@ + je_bool(b),
{
    if b {
        pe_lit(out, "true");
    } else {
        pe_lit(out, "false");
    }
}

/// Appends `null` or a decimal number.
pub fn pe_opt_u64(out: &mut Vec<char>, o: &Option<u64>)
    ensures
        final(out)@ == old(out)@ + je_opt_u64(*o),
{
    match o {
        None => {
            pe_lit(out, "null");
        },
        Some(n) => {
            pe_u64(out, *n);
        },
    }
}

/// Appends the quoted wire form of a string, escaping quotes and
/// backslashes.
pub fn pe_str(out: &mut Vec<char>, t: &str)
    ensures
        final(out)@ == old(out)@ + je_str(t@),
{
    out.push('"');
    let n = t.unicode_len();
    let mut i: usize = 0;
    while i < n
        invariant
            i <= n,
            n == t@.len(),
            out@ == old(out)@.push('"') + je_strbody(t@.subrange(0, i as int)),
        decreases n - i,
    {
        let c = t.get_char(i);
        if c == '"' || c == '\\' {
            out.push('\\');
            out.push(c);
        } else {
            out.push(c);
        }
        proof {
            lemma_je_strbody_snoc(t@.subrange(0, i + 1 as int));
            assert(t@.subrange(0, i + 1 as int).drop_last() =~= t@.subrange(0, i as int));
            assert(out@ =~= old(out)@.push('"') + je_strbody(t@.subrange(0, i + 1 as int)));
        }
        i = i + 1;
    }
    out.push('"');
    assert(t@.subrange(0, n as int) =~= t@);
    assert(old(out)@ + je_str(t@) =~= old(out)@.push('"') + je_strbody(t@) + seq!['"']);
}

/// The wire form of a string body grows by one escaped character at the
/// end when the string does.
proof fn lemma_je_strbody_snoc(t: Seq<char>)
    requires
        t.len() > 0,
    ensures
        je_strbody(t) == je_strbody(t.drop_last()) + esc_char(t.last()),
    decreases t.len(),
{
    if t.len() == 1 {
        assert(t.drop_last() =~= Seq::<char>::empty());
        assert(t.drop_first() =~= Seq::<char>::empty());
        assert(je_strbody(t) =~= esc_char(t[0]) + Seq::<char>::empty());
        assert(je_strbody(t) =~= je_strbody(t.drop_last()) + esc_char(t.last()));
    } else {
        let u = t.drop_first();
        lemma_je_strbody_snoc(u);
        assert(u.last() == t.last());
        assert(u.drop_last() =~= t.drop_last().drop_first());
        assert(t.drop_last()[0] == t[0]);
        assert(t.drop_last().len() > 0);
        assert(je_strbody(t.drop_last()) == esc_char(t[0]) + je_strbody(t.drop_last().drop_first()));
        assert(je_strbody(t) =~= je_strbody(t.drop_last()) + esc_char(t.last()));
    }
}

/// The decimal form of a `u64` as a string.
pub fn u64_string(n: u64) -> (r: String)
    ensures
        r@ == dec(n as nat),
{
    let mut out: Vec<char> = Vec::new();
    pe_u64(&mut out, n);
    to_wire(&out)
}

// ---------------------------------------------------------------------------
// Executable parsers
// ---------------------------------------------------------------------------

/// Consumes a fixed literal at the given position.
pub fn p_lit(v: &Vec<char>, pos: usize, lit: &str) -> (r: Option<usize>)
    requires
        pos <= v.len(),
    ensures
        match r {
            Some(j) => pos <= j <= v.len() && jp_lit(v@.skip(pos as int), lit@) == Some(
                v@.skip(j as int),
            ),
            None => jp_lit(v@.skip(pos as int), lit@) is None,
        },
{
    let n = lit.unicode_len();
    if v.len() - pos < n {
        return None;
    }
    let ghost s = v@.skip(pos as int);
    let mut i: usize = 0;
    while i < n
        invariant
            i <= n,
            n == lit@.len(),
            pos + n <= v.len(),
            s == v@.skip(pos as int),
            forall|k: int| 0 <= k < i ==> s[k] == lit@[k],
        decreases n - i,
    {
        let c = v[pos + i];
        let lc = lit.get_char(i);
        assert(c == s[i as int]);
        if c != lc {
            proof {
                lemma_lit_mismatch(s, lit@, i as int);
            }
            return None;
        }
        i = i + 1;
    }
    proof {
        assert(s.subrange(0, n as int) =~= lit@);
        assert(s.skip(n as int) =~= v@.skip((pos + n) as int));
    }
    Some(pos + n)
}

/// Parses a decimal `u64` at the given position.
pub fn p_u64(v: &Vec<char>, pos: usize) -> (r: Option<(u64, usize)>)
    requires
        pos <= v.len(),
    ensures
        match r {
            Some((n, j)) => pos <= j <= v.len() && jp_u64(v@.skip(pos as int)) == Some(
                (n, v@.skip(j as int)),
            ),
            None => jp_u64(v@.skip(pos as int)) is None,
        },
{
    let ghost s = v@.skip(pos as int);
    // find the end of the digit run
    let mut j: usize = pos;
    while j < v.len() && '0' <= v[j] && v[j] <= '9'
        invariant
            pos <= j <= v.len(),
            s == v@.skip(pos as int),
            forall|k: int| pos <= k < j ==> is_digit(#[trigger] v@[k]),
        decreases v.len() - j,
    {
        j = j + 1;
    }
    proof {
        assert(forall|k: int| 0 <= k < j - pos ==> is_digit(#[trigger] s[k]));
        assert(j - pos == s.len() || !is_digit(s[j - pos]));
        lemma_split_digits_at(s, j - pos);
        assert(split_digits(s).0 =~= v@.subrange(pos as int, j as int));
        assert(split_digits(s).1 =~= v@.skip(j as int));
    }
    if j == pos {
        return None;
    }
    let ghost ds = split_digits(s).0;
    // accumulate the value, watching for overflow
    let mut val: u64 = 0;
    let mut i: usize = pos;
    while i < j
        invariant
            pos <= i <= j <= v.len(),
            ds == v@.subrange(pos as int, j as int),
            split_digits(v@.skip(pos as int)).0 == ds,
            split_digits(v@.skip(pos as int)).1 == v@.skip(j as int),
            forall|k: int| pos <= k < j ==> is_digit(#[trigger] v@[k]),
            val as nat == digits_val(ds.subrange(0, (i - pos) as int)),
            digits_val(ds.subrange(0, (i - pos) as int)) <= u64::MAX,
        decreases j - i,
    {
        let c = v[i];
        let d: u64 = (c as u64) - ('0' as u64);
        assert(d == digit_val(v@[i as int]));
        assert(d < 10);
        let ghost pre = ds.subrange(0, (i - pos) as int);
        let ghost pre1 = ds.subrange(0, (i + 1 - pos) as int);
        proof {
            assert(pre1.drop_last() =~= pre);
            assert(pre1.last() == v@[i as int]);
            assert(digits_val(pre1) == digits_val(pre) * 10 + digit_val(v@[i as int]));
        }
        if val > 1844674407370955161u64 || (val == 1844674407370955161u64 && d > 5) {
            proof {
                assert(digits_val(pre1) > u64::MAX);
                lemma_digits_val_prefix_le(ds, (i + 1 - pos) as int);
                assert(digits_val(ds) > u64::MAX);
            }
            return None;
        }
        val = val * 10 + d;
        i = i + 1;
    }
    proof {
        assert(ds.subrange(0, (j - pos) as int) =~= ds);
    }
    Some((val, j))
}

/// Parses a decimal `i32`, with an optional leading minus sign.
pub fn p_i32(v: &Vec<char>, pos: usize) -> (r: Option<(i32, usize)>)
    requires
        pos <= v.len(),
    ensures
        match r {
            Some((n, j)) => pos <= j <= v.len() && jp_i32(v@.skip(pos as int)) == Some(
                (n, v@.skip(j as int)),
            ),
            None => jp_i32(v@.skip(pos as int)) is None,
        },
{
    let ghost s = v@.skip(pos as int);
    if pos < v.len() && v[pos] == '-' {
        assert(s[0] == '-');
        proof {
            assert(s.drop_first() =~= v@.skip(pos + 1 as int));
        }
        match p_u64(v, pos + 1) {
            None => None,
            Some((m, j)) => {
                if m > 0x8000_0000u64 || m == 0 {
                    None
                } else {
                    let n: i32 = (-(m as i64)) as i32;
                    Some((n, j))
                }
            },
        }
    } else {
        assert(s.len() == 0 || s[0] != '-');
        match p_u64(v, pos) {
            None => None,
            Some((m, j)) => {
                if m > 0x7fff_ffffu64 {
                    None
                } else {
                    Some((m as i32, j))
                }
            },
        }
    }
}

/// Parses an unsigned proportion in thousandths.
pub fn p_milli(v: &Vec<char>, pos: usize) -> (r: Option<(u64, usize)>)
    requires
        pos <= v.len(),
    ensures
        match r {
            Some((m, j)) => pos <= j <= v.len() && jp_milli(v@.skip(pos as int)) == Some(
                (m, v@.skip(j as int)),
            ),
            None => jp_milli(v@.skip(pos as int)) is None,
        },
{
    let ghost s = v@.skip(pos as int);
    let ghost ds = split_digits(s).0;
    let ghost r0 = split_digits(s).1;
    let whole_end: usize;
    let whole: u64;
    // the leading digit run, bounded to u32 range
    match p_u64(v, pos) {
        None => {
            proof {
                if split_digits(s).0.len() != 0 && digits_val(split_digits(s).0) <= 0xffff_ffff {
                    assert(jp_u64(s) is Some);
                }
            }
            return None;
        },
        Some((w, j)) => {
            if w > 0xffff_ffffu64 {
                proof {
                    assert(digits_val(ds) == w as nat);
                }
                return None;
            }
            whole = w;
            whole_end = j;
        },
    }
    proof {
        assert(r0 =~= v@.skip(whole_end as int));
    }
    // a dot and exactly three digits
    if v.len() - whole_end < 4 {
        return None;
    }
    if v[whole_end] != '.' {
        assert(r0[0] != '.');
        return None;
    }
    let c1 = v[whole_end + 1];
    let c2 = v[whole_end + 2];
    let c3 = v[whole_end + 3];
    assert(c1 == r0[1] && c2 == r0[2] && c3 == r0[3]);
    if !('0' <= c1 && c1 <= '9') || !('0' <= c2 && c2 <= '9') || !('0' <= c3 && c3 <= '9') {
        return None;
    }
    if whole_end + 4 < v.len() {
        let c4 = v[whole_end + 4];
        if '0' <= c4 && c4 <= '9' {
            assert(r0[4] == c4 && is_digit(r0[4]));
            return None;
        }
    }
    assert(r0.len() == 4 || !is_digit(r0[4]));
    let d1: u64 = (c1 as u64) - ('0' as u64);
    let d2: u64 = (c2 as u64) - ('0' as u64);
    let d3: u64 = (c3 as u64) - ('0' as u64);
    let frac: u64 = d1 * 100 + d2 * 10 + d3;
    assert(frac as nat == frac3_val(r0.subrange(1, 4)));
    let m: u64 = whole * 1000 + frac;
    proof {
        assert(digits_val(ds) * 1000 + frac3_val(r0.subrange(1, 4)) == m as nat);
        assert(r0.skip(4) =~= v@.skip((whole_end + 4) as int));
    }
    Some((m, whole_end + 4))
}

/// Parses a signed proportion in thousandths.
pub fn p_milli_i32(v: &Vec<char>, pos: usize) -> (r: Option<(i32, usize)>)
    requires
        pos <= v.len(),
    ensures
        match r {
            Some((m, j)) => pos <= j <= v.len() && jp_milli_i32(v@.skip(pos as int)) == Some(
                (m, v@.skip(j as int)),
            ),
            None => jp_milli_i32(v@.skip(pos as int)) is None,
        },
{
    let ghost s = v@.skip(pos as int);
    if pos < v.len() && v[pos] == '-' {
        assert(s[0] == '-');
        proof {
            assert(s.drop_first() =~= v@.skip(pos + 1 as int));
        }
        match p_milli(v, pos + 1) {
            None => None,
            Some((m, j)) => {
                if m > 0x8000_0000u64 || m == 0 {
                    None
                } else {
                    let n: i32 = (-(m as i64)) as i32;
                    Some((n, j))
                }
            },
        }
    } else {
        assert(s.len() == 0 || s[0] != '-');
        match p_milli(v, pos) {
            None => None,
            Some((m, j)) => {
                if m > 0x7fff_ffffu64 {
                    None
                } else {
                    Some((m as i32, j))
                }
            },
        }
    }
}

/// Parses `true` or `false`.
pub fn p_bool(v: &Vec<char>, pos: usize) -> (r: Option<(bool, usize)>)
    requires
        pos <= v.len(),
    ensures
        match r {
            Some((b, j)) => pos <= j <= v.len() && jp_bool(v@.skip(pos as int)) == Some(
                (b, v@.skip(j as int)),
            ),
            None => jp_bool(v@.skip(pos as int)) is None,
        },
{
    match p_lit(v, pos, "true") {
        Some(j) => Some((true, j)),
        None => match p_lit(v, pos, "false") {
            Some(j) => Some((false, j)),
            None => None,
        },
    }
}

/// Parses `null` or a decimal number.
pub fn p_opt_u64(v: &Vec<char>, pos: usize) -> (r: Option<(Option<u64>, usize)>)
    requires
        pos <= v.len(),
    ensures
        match r {
            Some((o, j)) => pos <= j <= v.len() && jp_opt_u64(v@.skip(pos as int)) == Some(
                (o, v@.skip(j as int)),
            ),
            None => jp_opt_u64(v@.skip(pos as int)) is None,
        },
{
    match p_lit(v, pos, "null") {
        Some(j) => Some((None, j)),
        None => match p_u64(v, pos) {
            Some((n, j)) => Some((Some(n), j)),
            None => None,
        },
    }
}

/// Parses a quoted JSON string.
pub fn p_str(v: &Vec<char>, pos: usize) -> (r: Option<(String, usize)>)
    requires
        pos <= v.len(),
    ensures
        match r {
            Some((t, j)) => pos <= j <= v.len() && jp_str(v@.skip(pos as int)) == Some(
                (t@, v@.skip(j as int)),
            ),
            None => jp_str(v@.skip(pos as int)) is None,
        },
{
    let ghost s = v@.skip(pos as int);
    if pos >= v.len() || v[pos] != '"' {
        assert(s.len() == 0 || s[0] != '"');
        return None;
    }
    assert(s[0] == '"');
    let ghost body = s.drop_first();
    let mut acc: Vec<char> = Vec::new();
    let mut i: usize = pos + 1;
    proof {
        assert(body =~= v@.skip(i as int));
    }
    loop
        invariant
            pos + 1 <= i <= v.len(),
            pos < v.len(),
            acc@.len() <= i,
            v@.skip(pos as int).len() > 0,
            v@.skip(pos as int)[0] == '"',
            body == v@.skip(pos as int).drop_first(),
            body == v@.skip(pos + 1 as int),
            jp_strbody(body) == match jp_strbody(v@.skip(i as int)) {
                Some((t, r)) => Some::<(Seq<char>, Seq<char>)>((acc@ + t, r)),
                None => None::<(Seq<char>, Seq<char>)>,
            },
        decreases v.len() - i,
    {
        let ghost cur = v@.skip(i as int);
        if i >= v.len() {
            assert(cur.len() == 0);
            assert(jp_strbody(body) is None);
            return None;
        }
        let c = v[i];
        assert(c == cur[0]);
        if c == '"' {
            // closing quote: the body ends here
            assert(jp_strbody(cur) == Some((Seq::<char>::empty(), cur)));
            assert(acc@ + Seq::<char>::empty() =~= acc@);
            let out = to_wire(&acc);
            proof {
                assert(cur.drop_first() =~= v@.skip(i + 1 as int));
            }
            return Some((out, i + 1));
        } else if c == '\\' {
            if i + 1 >= v.len() {
                assert(cur.len() < 2);
                assert(jp_strbody(cur) is None);
                assert(jp_strbody(body) is None);
                return None;
            }
            let e = v[i + 1];
            assert(e == cur[1]);
            if e == '"' || e == '\\' {
                acc.push(e);
                proof {
                    assert(cur.skip(2) =~= v@.skip(i + 2 as int));
                    assert(forall|t: Seq<char>, r: Seq<char>|
                        jp_strbody(v@.skip(i + 2 as int)) == Some::<(Seq<char>, Seq<char>)>((t, r))
                            ==> acc@.drop_last() + (seq![cur[1]] + t) =~= acc@ + t);
                }
                i = i + 2;
            } else {
                assert(jp_strbody(cur) is None);
                assert(jp_strbody(body) is None);
                return None;
            }
        } else {
            acc.push(c);
            proof {
                assert(cur.drop_first() =~= v@.skip(i + 1 as int));
                assert(forall|t: Seq<char>, r: Seq<char>|
                    jp_strbody(v@.skip(i + 1 as int)) == Some::<(Seq<char>, Seq<char>)>((t, r))
                        ==> acc@.drop_last() + (seq![cur[0]] + t) =~= acc@ + t);
            }
            i = i + 1;
        }
    }
}

} // verus!

