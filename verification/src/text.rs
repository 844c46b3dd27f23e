//! Character-sequence utilities shared by the evaluator: conversion between
//! `String` and `Vec<char>`, decimal parsing and formatting, ordering of
//! field names, and UTF-8 byte accounting.
use vstd::prelude::*;

verus! {


/// `String::push` appends one character at the end of the string.
pub assume_specification[ std::string::String::push ](s: &mut std::string::String, ch: char)
    ensures
        final(s)@ == old(s)@.push(ch),
;

/// The characters of a string slice, in order.
pub fn to_chars(s: &str) -> (v: Vec<char>)
    ensures
        v@ == s@,
{
    let mut v: Vec<char> = Vec::new();
    for c in it: s.chars()
        invariant
            v@ == it.seq().take(it.index() as int),
            it.seq() == s@,
    {
        v.push(c);
    }
    v
}

/// A string holding exactly the given characters.
pub fn from_chars(v: &[char]) -> (s: String)
    ensures
        s@ == v@,
{
    let mut s = String::new();
    for i in 0..v.len()
        invariant
            s@ == v@.take(i as int),
    {
        s.push(v[i]);
        assert(v@.take(i + 1) == v@.take(i as int).push(v@[i as int]));
    }
    assert(v@.take(v@.len() as int) == v@);
    s
}

/// Appends the characters of `s` to `v`.
pub fn push_str(v: &mut Vec<char>, s: &str)
    ensures
        final(v)@ == old(v)@ + s@,
{
    let cs = to_chars(s);
    push_chars(v, &cs);
}

/// Appends the characters of `w` to `v`.
pub fn push_chars(v: &mut Vec<char>, w: &Vec<char>)
    ensures
        final(v)@ == old(v)@ + w@,
{
    let ghost start = v@;
    for i in 0..w.len()
        invariant
            v@ == start + w@.take(i as int),
    {
        v.push(w[i]);
        assert(w@.take(i + 1) == w@.take(i as int).push(w@[i as int]));
    }
    assert(w@.take(w@.len() as int) == w@);
}

/// A fresh copy of a string.
pub fn copy_string(s: &String) -> (r: String)
    ensures
        r@ == s@,
{
    s.clone()
}

/// Whether two strings hold the same characters.
pub fn str_eq(a: &str, b: &str) -> (r: bool)
    ensures
        r == (a@ == b@),
{
    let ca = to_chars(a);
    let cb = to_chars(b);
    chars_eq(&ca, &cb)
}

/// Whether two character vectors are equal.
pub fn chars_eq(a: &Vec<char>, b: &Vec<char>) -> (r: bool)
    ensures
        r == (a@ == b@),
{
    if a.len() != b.len() {
        return false;
    }
    for i in 0..a.len()
        invariant
            a@.len() == b@.len(),
            forall|j: int| 0 <= j < i ==> a@[j] == b@[j],
    {
        if a[i] != b[i] {
            return false;
        }
    }
    assert(a@ =~= b@);
    true
}

/// Whether `s` begins with `prefix`.
pub open spec fn spec_starts_with(s: Seq<char>, prefix: Seq<char>) -> bool {
    prefix.len() <= s.len() && s.take(prefix.len() as int) == prefix
}

/// Whether `s` ends with `suffix`.
pub open spec fn spec_ends_with(s: Seq<char>, suffix: Seq<char>) -> bool {
    suffix.len() <= s.len() && s.skip(s.len() - suffix.len()) == suffix
}

/// Whether the string `s` begins with `prefix`.
pub fn starts_with(s: &str, prefix: &str) -> (r: bool)
    ensures
        r == spec_starts_with(s@, prefix@),
{
    let cs = to_chars(s);
    let cp = to_chars(prefix);
    if cp.len() > cs.len() {
        return false;
    }
    let mut i: usize = 0;
    while i < cp.len()
        invariant
            i <= cp@.len() <= cs@.len(),
            cs@ == s@,
            cp@ == prefix@,
            forall|j: int| 0 <= j < i ==> cs@[j] == cp@[j],
        decreases cp@.len() - i,
    {
        if cs[i] != cp[i] {
            assert(cs@.take(cp@.len() as int)[i as int] != cp@[i as int]);
            return false;
        }
        i = i + 1;
    }
    assert(cs@.take(cp@.len() as int) =~= cp@);
    true
}

/// Whether the string `s` ends with `suffix`.
pub fn ends_with(s: &str, suffix: &str) -> (r: bool)
    ensures
        r == spec_ends_with(s@, suffix@),
{
    let cs = to_chars(s);
    let cp = to_chars(suffix);
    if cp.len() > cs.len() {
        return false;
    }
    let off = cs.len() - cp.len();
    let mut i: usize = 0;
    while i < cp.len()
        invariant
            off + cp@.len() == cs@.len(),
            cs@.len() == cs.len(),
            i <= cp@.len() <= cs@.len(),
            cs@ == s@,
            cp@ == suffix@,
            forall|j: int| 0 <= j < i ==> cs@[off + j] == cp@[j],
        decreases cp@.len() - i,
    {
        if cs[off + i] != cp[i] {
            assert(cs@.skip(off as int)[i as int] != cp@[i as int]);
            return false;
        }
        i = i + 1;
    }
    assert(cs@.skip(off as int) =~= cp@);
    true
}

// ── Decimal digits ─────────────────────────────────────────────

/// An ASCII decimal digit.
pub open spec fn is_digit(c: char) -> bool {
    '0' <= c && c <= '9'
}

/// The value of an ASCII decimal digit.
pub open spec fn digit_val(c: char) -> nat {
    (c as u32 - '0' as u32) as nat
}

/// Every character of `s` is an ASCII decimal digit.
pub open spec fn all_digits(s: Seq<char>) -> bool {
    forall|i: int| 0 <= i < s.len() ==> is_digit(#[trigger] s[i])
}

/// The number that a sequence of decimal digits denotes.
pub open spec fn digits_value(s: Seq<char>) -> nat
    decreases s.len(),
{
    if s.len() == 0 {
        0
    } else {
        digits_value(s.drop_last()) * 10 + digit_val(s.last())
    }
}

/// A non-empty run of decimal digits whose value fits in a `u64`.
pub open spec fn spec_parse_digits(s: Seq<char>) -> Option<u64> {
    if s.len() > 0 && all_digits(s) && digits_value(s) <= u64::MAX {
        Some(digits_value(s) as u64)
    } else {
        None
    }
}

/// Decimal text of an unsigned integer, as `u64::from_str` reads it: an
/// optional `+` and then one or more ASCII digits whose value fits.
pub open spec fn spec_parse_u64(s: Seq<char>) -> Option<u64> {
    if s.len() > 0 && s[0] == '+' {
        spec_parse_digits(s.skip(1))
    } else {
        spec_parse_digits(s)
    }
}

/// Decimal text of a signed integer, as `i64::from_str` reads it: an
/// optional `+` or `-` and then one or more ASCII digits, in range.
pub open spec fn spec_parse_i64(s: Seq<char>) -> Option<i64> {
    let neg = s.len() > 0 && s[0] == '-';
    let body = if s.len() > 0 && (s[0] == '-' || s[0] == '+') {
        s.skip(1)
    } else {
        s
    };
    if body.len() > 0 && all_digits(body) {
        let m = digits_value(body);
        if neg && m <= 0x8000_0000_0000_0000 {
            Some((0 - m) as i64)
        } else if !neg && m <= i64::MAX {
            Some(m as i64)
        } else {
            None
        }
    } else {
        None
    }
}

proof fn lemma_digits_prefix_grows(s: Seq<char>, i: int, j: int)
    requires
        0 <= i <= j <= s.len(),
        all_digits(s),
    ensures
        digits_value(s.take(i)) <= digits_value(s.take(j)),
    decreases j - i,
{
    if i < j {
        lemma_digits_prefix_grows(s, i, j - 1);
        assert(s.take(j).drop_last() == s.take(j - 1));
    }
}

/// Reads `s[start..end]` as a run of decimal digits.
pub fn parse_digits(s: &Vec<char>, start: usize, end: usize) -> (r: Option<u64>)
    requires
        start <= end <= s@.len(),
    ensures
        r == spec_parse_digits(s@.subrange(start as int, end as int)),
{
    let ghost sub = s@.subrange(start as int, end as int);
    let mut i = start;
    let mut acc: u64 = 0;
    let mut overflow = false;
    while i < end
        invariant
            start <= i <= end <= s@.len(),
            sub == s@.subrange(start as int, end as int),
            all_digits(sub.take(i - start)),
            !overflow ==> acc == digits_value(sub.take(i - start)),
            overflow ==> digits_value(sub.take(i - start)) > u64::MAX,
        decreases end - i,
    {
        let c = s[i];
        if !('0' <= c && c <= '9') {
            assert(sub[i - start] == c);
            return None;
        }
        let d = ((c as u32) - ('0' as u32)) as u64;
        let ghost k = i - start;
        assert(sub.take(k + 1).drop_last() == sub.take(k));
        assert(sub.take(k + 1).last() == c);
        if !overflow {
            match acc.checked_mul(10) {
                Some(m) => match m.checked_add(d) {
                    Some(v) => {
                        acc = v;
                    },
                    None => {
                        overflow = true;
                    },
                },
                None => {
                    overflow = true;
                },
            }
        }
        i = i + 1;
        assert(all_digits(sub.take(i - start)));
    }
    assert(sub.take(end - start) == sub);
    if start == end || overflow {
        None
    } else {
        Some(acc)
    }
}

/// Reads decimal text as `u64::from_str` does.
pub fn parse_u64(s: &Vec<char>, start: usize, end: usize) -> (r: Option<u64>)
    requires
        start <= end <= s@.len(),
    ensures
        r == spec_parse_u64(s@.subrange(start as int, end as int)),
{
    let ghost sub = s@.subrange(start as int, end as int);
    if start < end && s[start] == '+' {
        assert(sub.skip(1) == s@.subrange(start + 1, end as int));
        parse_digits(s, start + 1, end)
    } else {
        parse_digits(s, start, end)
    }
}

/// Reads decimal text as `i64::from_str` does.
pub fn parse_i64(s: &Vec<char>, start: usize, end: usize) -> (r: Option<i64>)
    requires
        start <= end <= s@.len(),
    ensures
        r == spec_parse_i64(s@.subrange(start as int, end as int)),
{
    let ghost sub = s@.subrange(start as int, end as int);
    let neg = start < end && s[start] == '-';
    let signed = start < end && (s[start] == '-' || s[start] == '+');
    let b = if signed { start + 1 } else { start };
    assert(signed ==> sub.skip(1) == s@.subrange(b as int, end as int));
    assert(!signed ==> sub == s@.subrange(b as int, end as int));
    let m = parse_digits(s, b, end);
    let ghost body = s@.subrange(b as int, end as int);
    match m {
        None => {
            proof {
                if body.len() > 0 && all_digits(body) {
                    assert(digits_value(body) > u64::MAX);
                }
            }
            None
        },
        Some(m) => {
            if neg {
                if m < 0x8000_0000_0000_0000u64 {
                    Some(0 - (m as i64))
                } else if m == 0x8000_0000_0000_0000u64 {
                    Some(i64::MIN)
                } else {
                    None
                }
            } else {
                if m <= 0x7fff_ffff_ffff_ffffu64 {
                    Some(m as i64)
                } else {
                    None
                }
            }
        },
    }
}

/// The decimal digit character for `d < 10`.
pub open spec fn digit_char(d: nat) -> char {
    ((d + 48) as u32) as char
}

/// The shortest decimal text of a natural number.
pub open spec fn spec_nat_to_dec(n: nat) -> Seq<char>
    decreases n,
{
    if n < 10 {
        seq![digit_char(n)]
    } else {
        spec_nat_to_dec(n / 10).push(digit_char(n % 10))
    }
}

proof fn lemma_digit_char(d: nat)
    requires
        d < 10,
    ensures
        is_digit(digit_char(d)),
        digit_val(digit_char(d)) == d,
{
    let c = digit_char(d);
    assert(c as u32 == d + 48);
}

/// The decimal text of a number reads back as that number.
pub proof fn lemma_dec_reads_back(n: nat)
    ensures
        spec_nat_to_dec(n).len() > 0,
        all_digits(spec_nat_to_dec(n)),
        digits_value(spec_nat_to_dec(n)) == n,
    decreases n,
{
    let t = spec_nat_to_dec(n);
    lemma_digit_char(n % 10);
    if n < 10 {
        assert(t.drop_last() =~= Seq::<char>::empty());
        assert(n % 10 == n);
        assert(digits_value(t) == digits_value(t.drop_last()) * 10 + digit_val(t.last()));
    } else {
        lemma_dec_reads_back(n / 10);
        assert(t.drop_last() =~= spec_nat_to_dec(n / 10));
        assert(t.last() == digit_char(n % 10));
        assert(digits_value(t) == digits_value(t.drop_last()) * 10 + digit_val(t.last()));
        assert(n == (n / 10) * 10 + n % 10);
        assert forall|i: int| 0 <= i < t.len() implies is_digit(#[trigger] t[i]) by {
            if i < t.len() - 1 {
                assert(t[i] == spec_nat_to_dec(n / 10)[i]);
            }
        }
    }
}

/// The decimal text of a `u64` parses back as that number.
pub proof fn lemma_dec_parses(n: u64)
    ensures
        spec_parse_u64(spec_nat_to_dec(n as nat)) == Some(n),
{
    lemma_dec_reads_back(n as nat);
    let t = spec_nat_to_dec(n as nat);
    assert(is_digit(t[0]));
}

/// Decimal text of a signed integer, with a leading `-` when negative.
pub open spec fn spec_int_to_dec(n: int) -> Seq<char> {
    if n < 0 {
        seq!['-'] + spec_nat_to_dec((0 - n) as nat)
    } else {
        spec_nat_to_dec(n as nat)
    }
}

fn digit(d: u64) -> (c: char)
    requires
        d < 10,
    ensures
        c == digit_char(d as nat),
{
    let b: u8 = 48 + (d as u8);
    b as char
}

/// Decimal text of an unsigned integer.
pub fn u64_to_dec(n: u64) -> (v: Vec<char>)
    ensures
        v@ == spec_nat_to_dec(n as nat),
    decreases n,
{
    if n < 10 {
        let mut v = Vec::new();
        v.push(digit(n));
        v
    } else {
        let mut v = u64_to_dec(n / 10);
        v.push(digit(n % 10));
        v
    }
}

/// Decimal text of a signed integer.
pub fn i64_to_dec(n: i64) -> (v: Vec<char>)
    ensures
        v@ == spec_int_to_dec(n as int),
{
    if n < 0 {
        let m: u64 = (0i128 - (n as i128)) as u64;
        let mut v = Vec::new();
        v.push('-');
        let d = u64_to_dec(m);
        push_chars(&mut v, &d);
        v
    } else {
        u64_to_dec(n as u64)
    }
}

// ── Ordering of names ──────────────────────────────────────────

/// Lexicographic order of character sequences by code point, the order in
/// which `String` compares.
pub open spec fn seq_lt(a: Seq<char>, b: Seq<char>) -> bool
    decreases a.len(),
{
    if a.len() == 0 {
        b.len() > 0
    } else if b.len() == 0 {
        false
    } else if a[0] != b[0] {
        a[0] < b[0]
    } else {
        seq_lt(a.skip(1), b.skip(1))
    }
}

pub proof fn lemma_seq_lt_irrefl(a: Seq<char>)
    ensures
        !seq_lt(a, a),
    decreases a.len(),
{
    if a.len() > 0 {
        lemma_seq_lt_irrefl(a.skip(1));
    }
}

pub proof fn lemma_seq_lt_trans(a: Seq<char>, b: Seq<char>, c: Seq<char>)
    requires
        seq_lt(a, b),
        seq_lt(b, c),
    ensures
        seq_lt(a, c),
    decreases a.len(),
{
    if a.len() > 0 && b.len() > 0 && c.len() > 0 {
        if a[0] == b[0] && b[0] == c[0] {
            lemma_seq_lt_trans(a.skip(1), b.skip(1), c.skip(1));
        }
    }
}

pub proof fn lemma_seq_lt_total(a: Seq<char>, b: Seq<char>)
    ensures
        a == b || seq_lt(a, b) || seq_lt(b, a),
    decreases a.len(),
{
    if a.len() > 0 && b.len() > 0 && a[0] == b[0] {
        lemma_seq_lt_total(a.skip(1), b.skip(1));
        if a.skip(1) == b.skip(1) {
            assert forall|i: int| 0 <= i < a.len() implies a[i] == b[i] by {
                if i > 0 {
                    assert(a[i] == a.skip(1)[i - 1]);
                    assert(b[i] == b.skip(1)[i - 1]);
                }
            }
            assert(a =~= b);
        }
    } else if a.len() == 0 && b.len() == 0 {
        assert(a =~= b);
    }
}

pub proof fn lemma_seq_lt_asym(a: Seq<char>, b: Seq<char>)
    requires
        seq_lt(a, b),
    ensures
        !seq_lt(b, a),
        a != b,
{
    if seq_lt(b, a) {
        lemma_seq_lt_trans(a, b, a);
        lemma_seq_lt_irrefl(a);
    }
    if a == b {
        lemma_seq_lt_irrefl(a);
    }
}

/// Whether `a` comes strictly before `b`.
pub fn chars_lt(a: &Vec<char>, b: &Vec<char>) -> (r: bool)
    ensures
        r == seq_lt(a@, b@),
{
    let mut i: usize = 0;
    assert(a@.skip(0) == a@);
    assert(b@.skip(0) == b@);
    while i < a.len() && i < b.len()
        invariant
            i <= a@.len(),
            i <= b@.len(),
            a@.take(i as int) == b@.take(i as int),
            seq_lt(a@, b@) == seq_lt(a@.skip(i as int), b@.skip(i as int)),
        decreases a@.len() - i,
    {
        if a[i] != b[i] {
            assert(a@.skip(i as int)[0] == a@[i as int]);
            assert(b@.skip(i as int)[0] == b@[i as int]);
            return a[i] < b[i];
        }
        assert(a@.skip(i as int).skip(1) == a@.skip(i + 1));
        assert(b@.skip(i as int).skip(1) == b@.skip(i + 1));
        assert(a@.take(i + 1) == a@.take(i as int).push(a@[i as int]));
        assert(b@.take(i + 1) == b@.take(i as int).push(b@[i as int]));
        i = i + 1;
    }
    i < b.len()
}

// ── Searching ──────────────────────────────────────────────────

/// The index of the first occurrence of `c` in `s`, if any.
pub open spec fn spec_find(s: Seq<char>, c: char) -> Option<int>
    decreases s.len(),
{
    if s.len() == 0 {
        None
    } else if s[0] == c {
        Some(0)
    } else {
        match spec_find(s.skip(1), c) {
            Some(i) => Some(i + 1),
            None => None,
        }
    }
}

pub proof fn lemma_find_props(s: Seq<char>, c: char)
    ensures
        spec_find(s, c) matches Some(i) ==> 0 <= i < s.len() && s[i] == c && forall|j: int|
            0 <= j < i ==> s[j] != c,
        spec_find(s, c) is None ==> forall|j: int| 0 <= j < s.len() ==> s[j] != c,
    decreases s.len(),
{
    if s.len() > 0 && s[0] != c {
        lemma_find_props(s.skip(1), c);
        assert forall|j: int| 1 <= j < s.len() implies s[j] == s.skip(1)[j - 1] by {}
    }
}

pub proof fn lemma_find_char_iff(s: Seq<char>, c: char, i: int)
    requires
        0 <= i < s.len(),
        s[i] == c,
        forall|j: int| 0 <= j < i ==> s[j] != c,
    ensures
        spec_find(s, c) == Some(i),
    decreases s.len(),
{
    if i > 0 {
        lemma_find_char_iff(s.skip(1), c, i - 1);
    }
}

pub proof fn lemma_find_none(s: Seq<char>, c: char)
    requires
        forall|j: int| 0 <= j < s.len() ==> s[j] != c,
    ensures
        spec_find(s, c) is None,
    decreases s.len(),
{
    if s.len() > 0 {
        lemma_find_none(s.skip(1), c);
    }
}

/// Index of the first `c` at or after `from` and before `end`.
pub fn find_from(s: &Vec<char>, c: char, from: usize, end: usize) -> (r: Option<usize>)
    requires
        from <= end <= s@.len(),
    ensures
        r matches Some(i) ==> from <= i < end && s@[i as int] == c,
        spec_find(s@.subrange(from as int, end as int), c) == (match r {
            Some(i) => Some(i - from),
            None => None::<int>,
        }),
{
    let ghost sub = s@.subrange(from as int, end as int);
    let mut i = from;
    while i < end
        invariant
            from <= i <= end <= s@.len(),
            sub == s@.subrange(from as int, end as int),
            forall|j: int| from <= j < i ==> s@[j] != c,
        decreases end - i,
    {
        if s[i] == c {
            proof {
                lemma_find_char_iff(sub, c, i - from);
            }
            return Some(i);
        }
        i = i + 1;
    }
    proof {
        lemma_find_none(sub, c);
    }
    None
}

/// Splits `s` at the first `c`: the part before it and the part after it.
pub open spec fn spec_split_once(s: Seq<char>, c: char) -> Option<(Seq<char>, Seq<char>)> {
    match spec_find(s, c) {
        Some(i) => Some((s.take(i), s.skip(i + 1))),
        None => None,
    }
}

// ── UTF-8 byte accounting ──────────────────────────────────────

/// How many bytes UTF-8 spends on a character (`char::len_utf8`).
pub open spec fn char_width(c: char) -> nat {
    if (c as u32) < 0x80 {
        1
    } else if (c as u32) < 0x800 {
        2
    } else if (c as u32) < 0x10000 {
        3
    } else {
        4
    }
}

/// The UTF-8 length in bytes of a character sequence (`str::len`).
pub open spec fn byte_len(s: Seq<char>) -> nat
    decreases s.len(),
{
    if s.len() == 0 {
        0
    } else {
        byte_len(s.drop_last()) + char_width(s.last())
    }
}

/// Byte offset `n` of `s` falls between two characters (or at either end).
pub open spec fn is_boundary(s: Seq<char>, n: int) -> bool {
    exists|k: int| 0 <= k <= s.len() && byte_len(#[trigger] s.take(k)) == n
}

pub proof fn lemma_byte_len_strict(s: Seq<char>, i: int, j: int)
    requires
        0 <= i < j <= s.len(),
    ensures
        byte_len(s.take(i)) < byte_len(s.take(j)),
    decreases j - i,
{
    assert(s.take(j).drop_last() == s.take(j - 1));
    if i < j - 1 {
        lemma_byte_len_strict(s, i, j - 1);
    }
}

pub proof fn lemma_byte_len_mono(s: Seq<char>, i: int, j: int)
    requires
        0 <= i <= j <= s.len(),
    ensures
        byte_len(s.take(i)) <= byte_len(s.take(j)),
{
    if i < j {
        lemma_byte_len_strict(s, i, j);
    }
}

/// `char::len_utf8`.
pub fn width_of(c: char) -> (w: u128)
    ensures
        w == char_width(c),
{
    let u = c as u32;
    if u < 0x80 {
        1
    } else if u < 0x800 {
        2
    } else if u < 0x10000 {
        3
    } else {
        4
    }
}

/// The UTF-8 length in bytes of a character vector.
pub fn byte_length(v: &Vec<char>) -> (n: u128)
    ensures
        n == byte_len(v@),
{
    let mut n: u128 = 0;
    let mut k: usize = 0;
    while k < v.len()
        invariant
            k <= v@.len(),
            n == byte_len(v@.take(k as int)),
            n <= 4 * k,
        decreases v@.len() - k,
    {
        let c = v[k];
        let w: u128 = width_of(c);
        assert(v@.take(k + 1).drop_last() == v@.take(k as int));
        n = n + w;
        k = k + 1;
    }
    assert(v@.take(v@.len() as int) == v@);
    n
}

/// The character index at which byte offset `n` of `s` falls, when it falls
/// between two characters.
pub fn char_index_of_byte(s: &Vec<char>, n: u128) -> (r: Option<usize>)
    ensures
        r matches Some(k) ==> k <= s@.len() && byte_len(s@.take(k as int)) == n,
        r is None <==> !is_boundary(s@, n as int),
{
    let mut k: usize = 0;
    let mut b: u128 = 0;
    while k < s.len() && b < n
        invariant
            k <= s@.len(),
            b == byte_len(s@.take(k as int)),
            k > 0 ==> byte_len(s@.take(k - 1)) < n,
            b <= 4 * k,
        decreases s@.len() - k,
    {
        let c = s[k];
        let w: u128 = width_of(c);
        assert(s@.take(k + 1).drop_last() == s@.take(k as int));
        k = k + 1;
        b = b + w;
    }
    if b == n {
        Some(k)
    } else {
        proof {
            assert forall|j: int| 0 <= j <= s@.len() implies byte_len(#[trigger] s@.take(j))
                != n by {
                if j < k {
                    lemma_byte_len_mono(s@, j, k - 1);
                    if b < n {
                        lemma_byte_len_mono(s@, j, k as int);
                    }
                } else if j > k {
                    lemma_byte_len_strict(s@, k as int, j);
                }
            }
        }
        None
    }
}

/// The character index of byte offset `n` when it is a boundary.
pub open spec fn char_at_byte(s: Seq<char>, n: int) -> int {
    choose|k: int| 0 <= k <= s.len() && byte_len(#[trigger] s.take(k)) == n
}

pub proof fn lemma_char_at_byte(s: Seq<char>, n: int, k: int)
    requires
        0 <= k <= s.len(),
        byte_len(s.take(k)) == n,
    ensures
        char_at_byte(s, n) == k,
{
    let j = char_at_byte(s, n);
    assert(is_boundary(s, n));
    if j < k {
        lemma_byte_len_strict(s, j, k);
    } else if j > k {
        lemma_byte_len_strict(s, k, j);
    }
}

} // verus!
