//! Evaluation of literal tokens: strings, triple-quoted strings, integers,
//! URIs, atoms, names, and the components of date, time and duration literals.
use vstd::prelude::*;

use crate::text::{
    byte_len, byte_length, char_at_byte, char_index_of_byte, char_width, from_chars,
    is_boundary, lemma_byte_len_strict, lemma_char_at_byte, lemma_find_char_iff, lemma_find_none,
    find_from, parse_i64, parse_u64, push_chars, spec_find, spec_parse_i64, spec_parse_u64,
    spec_split_once, to_chars, width_of, all_digits, is_digit, lemma_dec_parses,
    lemma_dec_reads_back, spec_nat_to_dec,
};

verus! {

broadcast use {crate::types::lemma_value_view_unfold, crate::import_value::lemma_import_view_unfold};

// ── Escapes ────────────────────────────────────────────────────

/// The character that an escape `\c` stands for, if `c` is a recognised escape.
pub open spec fn escape_target(c: char) -> Option<char> {
    if c == '"' {
        Some('"')
    } else if c == '\\' {
        Some('\\')
    } else if c == 'n' {
        Some('\n')
    } else if c == 't' {
        Some('\t')
    } else {
        None
    }
}

/// The string interior after escape processing: `\"`, `\\`, `\n` and `\t`
/// become the character they name; any other `\c` is kept as written; a
/// trailing lone backslash is kept.
pub open spec fn spec_process_escapes(s: Seq<char>) -> Seq<char>
    decreases s.len(),
{
    if s.len() == 0 {
        seq![]
    } else if s[0] == '\\' {
        if s.len() == 1 {
            seq!['\\']
        } else {
            match escape_target(s[1]) {
                Some(t) => seq![t] + spec_process_escapes(s.skip(2)),
                None => seq!['\\', s[1]] + spec_process_escapes(s.skip(2)),
            }
        }
    } else {
        seq![s[0]] + spec_process_escapes(s.skip(1))
    }
}

/// Processes escape sequences in a string interior given as characters.
fn process_escapes_chars(s: &Vec<char>) -> (r: Vec<char>)
    ensures
        r@ == spec_process_escapes(s@),
{
    let mut out: Vec<char> = Vec::new();
    let mut i: usize = 0;
    assert(s@.skip(0) == s@);
    while i < s.len()
        invariant
            i <= s@.len(),
            out@ + spec_process_escapes(s@.skip(i as int)) == spec_process_escapes(s@),
        decreases s@.len() - i,
    {
        let ghost rest = s@.skip(i as int);
        let ch = s[i];
        assert(rest[0] == ch);
        if ch == '\\' {
            if i + 1 < s.len() {
                let nx = s[i + 1];
                assert(rest[1] == nx);
                assert(rest.skip(2) == s@.skip(i + 2));
                if nx == '"' {
                    out.push('"');
                } else if nx == '\\' {
                    out.push('\\');
                } else if nx == 'n' {
                    out.push('\n');
                } else if nx == 't' {
                    out.push('\t');
                } else {
                    out.push('\\');
                    out.push(nx);
                }
                assert(out@ + spec_process_escapes(s@.skip(i + 2)) == spec_process_escapes(s@));
                i = i + 2;
            } else {
                out.push('\\');
                assert(s@.skip(i + 1).len() == 0);
                i = i + 1;
            }
        } else {
            out.push(ch);
            assert(rest.skip(1) == s@.skip(i + 1));
            i = i + 1;
        }
    }
    assert(s@.skip(i as int).len() == 0);
    out
}

/// How a character is written inside a string literal: backslash, double
/// quote, newline and tab escaped, any other character as itself.
pub open spec fn escape_char(c: char) -> Seq<char> {
    if c == '\\' {
        seq!['\\', '\\']
    } else if c == '"' {
        seq!['\\', '"']
    } else if c == '\n' {
        seq!['\\', 'n']
    } else if c == '\t' {
        seq!['\\', 't']
    } else {
        seq![c]
    }
}

/// Text written with every character escaped as `escape_char` writes it.
pub open spec fn spec_escape(s: Seq<char>) -> Seq<char>
    decreases s.len(),
{
    if s.len() == 0 {
        seq![]
    } else {
        escape_char(s[0]) + spec_escape(s.skip(1))
    }
}

/// Processing the escapes of escaped text gives the text back.
pub proof fn lemma_escape_round_trip(s: Seq<char>)
    ensures
        spec_process_escapes(spec_escape(s)) == s,
    decreases s.len(),
{
    if s.len() > 0 {
        lemma_escape_round_trip(s.skip(1));
        let c = s[0];
        let r = spec_escape(s.skip(1));
        let e = spec_escape(s);
        assert(e == escape_char(c) + r);
        if escape_char(c).len() == 2 {
            assert(e[0] == '\\');
            assert(e[1] == escape_char(c)[1]);
            assert(e.skip(2) =~= r);
        } else {
            assert(e[0] == c);
            assert(e.skip(1) =~= r);
        }
        assert(s =~= seq![c] + s.skip(1));
    }
}

/// Processes escape sequences in a string interior: `\\"`, `\\\\`, `\\n` and
/// `\\t` become the character they name; unknown escapes are kept as
/// written.
pub fn process_escapes(inner: &str) -> (r: String)
    ensures
        r@ == spec_process_escapes(inner@),
{
    let cs = to_chars(inner);
    let out = process_escapes_chars(&cs);
    from_chars(out.as_slice())
}

// ── Lines and dedent ───────────────────────────────────────────

/// The segments of `s` between `sep` characters (always at least one).
pub open spec fn spec_split(s: Seq<char>, sep: char) -> Seq<Seq<char>>
    decreases s.len(),
{
    match spec_find(s, sep) {
        Some(i) => {
            if 0 <= i < s.len() {
                seq![s.take(i)] + spec_split(s.skip(i + 1), sep)
            } else {
                seq![s]
            }
        },
        None => seq![s],
    }
}

/// The segments of `lines` joined with `sep` between them.
pub open spec fn spec_join(lines: Seq<Seq<char>>, sep: char) -> Seq<char>
    decreases lines.len(),
{
    if lines.len() == 0 {
        seq![]
    } else if lines.len() == 1 {
        lines[0]
    } else {
        spec_join(lines.drop_last(), sep).push(sep) + lines.last()
    }
}

/// `char::is_whitespace`: the Unicode `White_Space` property.
pub open spec fn is_ws(c: char) -> bool {
    ||| ('\t' <= c && c <= '\r')
    ||| c == ' '
    ||| c == '\u{85}'
    ||| c == '\u{a0}'
    ||| c == '\u{1680}'
    ||| ('\u{2000}' <= c && c <= '\u{200a}')
    ||| c == '\u{2028}'
    ||| c == '\u{2029}'
    ||| c == '\u{202f}'
    ||| c == '\u{205f}'
    ||| c == '\u{3000}'
}

/// The number of whitespace characters at the start of `s`.
pub open spec fn leading_ws(s: Seq<char>) -> nat
    decreases s.len(),
{
    if s.len() == 0 || !is_ws(s[0]) {
        0
    } else {
        1 + leading_ws(s.skip(1))
    }
}

/// Bytes of leading whitespace (`line.len() - line.trim_start().len()`).
pub open spec fn indent_bytes(s: Seq<char>) -> nat {
    byte_len(s.take(leading_ws(s) as int))
}

/// The smallest indentation among the non-empty lines, if any.
pub open spec fn spec_min_indent(lines: Seq<Seq<char>>) -> Option<nat>
    decreases lines.len(),
{
    if lines.len() == 0 {
        None
    } else {
        let prev = spec_min_indent(lines.drop_last());
        let l = lines.last();
        if l.len() == 0 {
            prev
        } else {
            match prev {
                None => Some(indent_bytes(l)),
                Some(p) => Some(if p <= indent_bytes(l) {
                    p
                } else {
                    indent_bytes(l)
                }),
            }
        }
    }
}

/// A line made only of spaces and tabs (possibly empty).
pub open spec fn is_blank(s: Seq<char>) -> bool {
    forall|i: int| 0 <= i < s.len() ==> (s[i] == ' ' || s[i] == '\t')
}

/// The lines after dropping an empty first line.
pub open spec fn dedent_lines(s: Seq<char>) -> Seq<Seq<char>> {
    let lines = spec_split(s, '\n');
    if lines.len() > 0 && lines[0].len() == 0 {
        lines.drop_first()
    } else {
        lines
    }
}

/// The lines that dedent keeps, after a blank last line is removed.
pub open spec fn dedent_body(s: Seq<char>) -> Seq<Seq<char>> {
    let lines = dedent_lines(s);
    if lines.len() > 0 && is_blank(lines.last()) {
        lines.drop_last()
    } else {
        lines
    }
}

/// The indentation, in bytes, removed at most from every line: the width of
/// a blank last line, or else the smallest indentation of the non-empty
/// lines.
pub open spec fn dedent_amount(s: Seq<char>) -> nat {
    let lines = dedent_lines(s);
    if lines.len() > 0 && is_blank(lines.last()) {
        lines.last().len()
    } else {
        match spec_min_indent(lines) {
            Some(m) => m,
            None => 0,
        }
    }
}

/// How many leading whitespace characters of `l` fit within `m` bytes.
pub open spec fn strip_count(l: Seq<char>, m: int) -> nat
    decreases l.len(),
{
    if l.len() > 0 && is_ws(l[0]) && char_width(l[0]) <= m {
        1 + strip_count(l.skip(1), m - char_width(l[0]))
    } else {
        0
    }
}

/// A line with its leading whitespace removed, up to `m` bytes of it; no
/// other character is removed.
pub open spec fn strip_line(l: Seq<char>, m: nat) -> Seq<char> {
    l.skip(strip_count(l, m as int) as int)
}

/// Dedenting a line removes only leading whitespace, and no more than `m`
/// bytes of it.
pub proof fn lemma_strip_only_whitespace(l: Seq<char>, m: int)
    ensures
        strip_count(l, m) <= l.len(),
        forall|i: int| 0 <= i < strip_count(l, m) ==> is_ws(#[trigger] l[i]),
        strip_count(l, m) > 0 ==> byte_len(l.take(strip_count(l, m) as int)) <= m,
    decreases l.len(),
{
    if l.len() > 0 && is_ws(l[0]) && char_width(l[0]) <= m {
        let t = l.skip(1);
        let w = char_width(l[0]);
        lemma_strip_only_whitespace(t, m - w);
        let k = strip_count(t, m - w);
        assert forall|i: int| 0 <= i < k + 1 implies is_ws(#[trigger] l[i]) by {
            if i > 0 {
                assert(l[i] == t[i - 1]);
            }
        }
        lemma_byte_len_prepend(l[0], t.take(k as int));
        assert(l.take(k as int + 1) =~= seq![l[0]] + t.take(k as int));
        if k == 0 {
            assert(t.take(0) =~= Seq::<char>::empty());
        }
    }
}

proof fn lemma_byte_len_prepend(c: char, t: Seq<char>)
    ensures
        byte_len(seq![c] + t) == char_width(c) + byte_len(t),
    decreases t.len(),
{
    let u = seq![c] + t;
    if t.len() == 0 {
        assert(u.drop_last() =~= Seq::<char>::empty());
        assert(u.last() == c);
        assert(byte_len(u) == byte_len(u.drop_last()) + char_width(u.last()));
    } else {
        lemma_byte_len_prepend(c, t.drop_last());
        assert(u.drop_last() =~= seq![c] + t.drop_last());
        assert(u.last() == t.last());
        assert(byte_len(u) == byte_len(u.drop_last()) + char_width(u.last()));
        assert(byte_len(t) == byte_len(t.drop_last()) + char_width(t.last()));
    }
}

/// Auto-dedent of a multi-line string: an empty first line and a blank last
/// line are dropped, and each remaining line loses its leading whitespace up
/// to the indentation; nothing else is removed.
pub open spec fn spec_dedent(s: Seq<char>) -> Seq<char> {
    if dedent_lines(s).len() == 0 {
        seq![]
    } else {
        let body = dedent_body(s);
        let m = dedent_amount(s);
        spec_join(Seq::new(body.len(), |i: int| strip_line(body[i], m)), '\n')
    }
}

pub open spec fn view_lines(v: Seq<Vec<char>>) -> Seq<Seq<char>> {
    Seq::new(v.len(), |i: int| v[i]@)
}

proof fn lemma_split_step(cur: Seq<char>, rest: Seq<char>, sep: char)
    requires
        forall|j: int| 0 <= j < cur.len() ==> cur[j] != sep,
    ensures
        spec_split(cur + seq![sep] + rest, sep) == seq![cur] + spec_split(rest, sep),
{
    let s = cur + seq![sep] + rest;
    lemma_find_char_iff(s, sep, cur.len() as int);
    assert(s.take(cur.len() as int) == cur);
    assert(s.skip(cur.len() as int + 1) == rest);
}

proof fn lemma_split_none(cur: Seq<char>, sep: char)
    requires
        forall|j: int| 0 <= j < cur.len() ==> cur[j] != sep,
    ensures
        spec_split(cur, sep) == seq![cur],
{
    lemma_find_none(cur, sep);
}

/// Splits `s` at every `sep`.
fn split_on(s: &Vec<char>, sep: char) -> (lines: Vec<Vec<char>>)
    ensures
        view_lines(lines@) == spec_split(s@, sep),
        lines@.len() > 0,
{
    let mut lines: Vec<Vec<char>> = Vec::new();
    let mut cur: Vec<char> = Vec::new();
    let mut i: usize = 0;
    assert(s@.skip(0) == s@);
    assert(cur@ + s@ == s@);
    while i < s.len()
        invariant
            i <= s@.len(),
            forall|j: int| 0 <= j < cur@.len() ==> cur@[j] != sep,
            view_lines(lines@) + spec_split(cur@ + s@.skip(i as int), sep) == spec_split(s@, sep),
        decreases s@.len() - i,
    {
        let c = s[i];
        let ghost rest = s@.skip(i + 1);
        assert(s@.skip(i as int) == seq![c] + rest);
        if c == sep {
            proof {
                lemma_split_step(cur@, rest, sep);
                assert(cur@ + s@.skip(i as int) == cur@ + seq![sep] + rest);
            }
            let ghost old_lines = lines@;
            let done = cur;
            lines.push(done);
            cur = Vec::new();
            assert(view_lines(lines@) == view_lines(old_lines) + seq![done@]);
            assert(cur@ + rest == rest);
        } else {
            let ghost old_cur = cur@;
            cur.push(c);
            assert(old_cur + s@.skip(i as int) == cur@ + rest);
        }
        i = i + 1;
    }
    proof {
        assert(s@.skip(i as int).len() == 0);
        assert(cur@ + s@.skip(i as int) == cur@);
        lemma_split_none(cur@, sep);
    }
    let ghost old_lines = lines@;
    let last = cur;
    lines.push(last);
    assert(view_lines(lines@) == view_lines(old_lines) + seq![last@]);
    lines
}

/// Joins lines with `sep` between them.
fn join_on(lines: &Vec<Vec<char>>, sep: char) -> (r: Vec<char>)
    ensures
        r@ == spec_join(view_lines(lines@), sep),
{
    let mut out: Vec<char> = Vec::new();
    let mut i: usize = 0;
    while i < lines.len()
        invariant
            i <= lines@.len(),
            out@ == spec_join(view_lines(lines@).take(i as int), sep),
        decreases lines@.len() - i,
    {
        let ghost vl = view_lines(lines@);
        assert(vl.take(i + 1).drop_last() == vl.take(i as int));
        assert(vl.take(i + 1).last() == lines@[i as int]@);
        if i > 0 {
            out.push(sep);
        } else {
            assert(vl.take(0).len() == 0);
        }
        push_chars(&mut out, &lines[i]);
        i = i + 1;
    }
    assert(view_lines(lines@).take(lines@.len() as int) == view_lines(lines@));
    out
}

proof fn lemma_blank_bytes(s: Seq<char>)
    requires
        is_blank(s),
    ensures
        byte_len(s) == s.len(),
    decreases s.len(),
{
    if s.len() > 0 {
        lemma_blank_bytes(s.drop_last());
    }
}

/// Bytes of leading whitespace of a line.
fn indent_of(l: &Vec<char>) -> (n: u128)
    ensures
        n == indent_bytes(l@),
{
    let mut k: usize = 0;
    assert(l@.skip(0) == l@);
    while k < l.len() && is_ws_char(l[k])
        invariant
            k <= l@.len(),
            leading_ws(l@) == k + leading_ws(l@.skip(k as int)),
        decreases l@.len() - k,
    {
        assert(l@.skip(k as int).skip(1) == l@.skip(k + 1));
        k = k + 1;
    }
    let ghost tail = l@.skip(k as int);
    assert(k < l@.len() ==> tail[0] == l@[k as int]);
    let prefix = take_chars(l, k);
    byte_length(&prefix)
}

fn take_chars(v: &Vec<char>, k: usize) -> (r: Vec<char>)
    requires
        k <= v@.len(),
    ensures
        r@ == v@.take(k as int),
{
    let mut r: Vec<char> = Vec::new();
    let mut i: usize = 0;
    while i < k
        invariant
            i <= k <= v@.len(),
            r@ == v@.take(i as int),
        decreases k - i,
    {
        r.push(v[i]);
        assert(v@.take(i + 1) == v@.take(i as int).push(v@[i as int]));
        i = i + 1;
    }
    r
}

fn skip_chars(v: &Vec<char>, k: usize) -> (r: Vec<char>)
    requires
        k <= v@.len(),
    ensures
        r@ == v@.skip(k as int),
{
    let mut r: Vec<char> = Vec::new();
    let mut i: usize = k;
    while i < v.len()
        invariant
            k <= i <= v@.len(),
            r@ == v@.subrange(k as int, i as int),
        decreases v@.len() - i,
    {
        r.push(v[i]);
        assert(v@.subrange(k as int, i + 1) == v@.subrange(k as int, i as int).push(
            v@[i as int],
        ));
        i = i + 1;
    }
    r
}

/// `char::is_whitespace`.
fn is_ws_char(c: char) -> (r: bool)
    ensures
        r == is_ws(c),
{
    ('\t' <= c && c <= '\r') || c == ' ' || c == '\u{85}' || c == '\u{a0}' || c == '\u{1680}'
        || ('\u{2000}' <= c && c <= '\u{200a}') || c == '\u{2028}' || c == '\u{2029}' || c
        == '\u{202f}' || c == '\u{205f}' || c == '\u{3000}'
}

fn is_blank_line(l: &Vec<char>) -> (r: bool)
    ensures
        r == is_blank(l@),
{
    let mut i: usize = 0;
    while i < l.len()
        invariant
            i <= l@.len(),
            forall|j: int| 0 <= j < i ==> (l@[j] == ' ' || l@[j] == '\t'),
        decreases l@.len() - i,
    {
        if !(l[i] == ' ' || l[i] == '\t') {
            return false;
        }
        i = i + 1;
    }
    true
}

/// Smallest indentation among the non-empty lines.
fn min_indent(lines: &Vec<Vec<char>>) -> (r: Option<u128>)
    ensures
        r == (match spec_min_indent(view_lines(lines@)) {
            Some(m) => Some(m as u128),
            None => None::<u128>,
        }),
        r matches Some(m) ==> m == spec_min_indent(view_lines(lines@))->0,
{
    let mut best: Option<u128> = None;
    let mut i: usize = 0;
    while i < lines.len()
        invariant
            i <= lines@.len(),
            spec_min_indent(view_lines(lines@).take(i as int)) == (match best {
                Some(m) => Some(m as nat),
                None => None::<nat>,
            }),
        decreases lines@.len() - i,
    {
        let ghost vl = view_lines(lines@);
        assert(vl.take(i + 1).drop_last() == vl.take(i as int));
        assert(vl.take(i + 1).last() == lines@[i as int]@);
        if lines[i].len() > 0 {
            let w = indent_of(&lines[i]);
            best = match best {
                None => Some(w),
                Some(p) => Some(if p <= w { p } else { w }),
            };
        }
        i = i + 1;
    }
    assert(view_lines(lines@).take(lines@.len() as int) == view_lines(lines@));
    best
}

/// Applies auto-dedent to a multi-line string.
fn dedent(s: &Vec<char>) -> (r: Vec<char>)
    ensures
        r@ == spec_dedent(s@),
{
    let mut lines = split_on(s, '\n');
    let ghost all = view_lines(lines@);
    if lines[0].len() == 0 {
        let ghost before = lines@;
        lines.remove(0);
        assert(view_lines(lines@) == all.drop_first());
    }
    assert(view_lines(lines@) == dedent_lines(s@));
    if lines.len() == 0 {
        return Vec::new();
    }
    let last_idx = lines.len() - 1;
    let m: u128;
    if is_blank_line(&lines[last_idx]) {
        m = lines[last_idx].len() as u128;
        let ghost before = lines@;
        lines.pop();
        assert(view_lines(lines@) == view_lines(before).drop_last());
    } else {
        m = match min_indent(&lines) {
            Some(x) => x,
            None => 0,
        };
    }
    assert(view_lines(lines@) == dedent_body(s@));
    assert(m == dedent_amount(s@));
    let ghost body = dedent_body(s@);
    let mut out_lines: Vec<Vec<char>> = Vec::new();
    let mut i: usize = 0;
    while i < lines.len()
        invariant
            i <= lines@.len(),
            view_lines(lines@) == body,
            m == dedent_amount(s@),
            dedent_lines(s@).len() > 0,
            body == dedent_body(s@),
            out_lines@.len() == i,
            forall|j: int| 0 <= j < i ==> (#[trigger] out_lines@[j])@ == strip_line(body[j], m as nat),
        decreases lines@.len() - i,
    {
        let line = &lines[i];
        assert(line@ == body[i as int]);
        let k = strip_count_of(line, m);
        let stripped = skip_chars(line, k);
        out_lines.push(stripped);
        i = i + 1;
    }
    let r = join_on(&out_lines, '\n');
    assert(view_lines(out_lines@) =~= Seq::new(body.len(), |i: int| strip_line(body[i], m as nat)));
    r
}

/// How many leading whitespace characters of a line fit within `m` bytes.
fn strip_count_of(l: &Vec<char>, m: u128) -> (k: usize)
    ensures
        k == strip_count(l@, m as int),
        k <= l@.len(),
{
    let mut k: usize = 0;
    let mut rem: u128 = m;
    assert(l@.skip(0) == l@);
    while k < l.len() && is_ws_char(l[k]) && width_of(l[k]) <= rem
        invariant
            k <= l@.len(),
            rem <= m,
            strip_count(l@, m as int) == k + strip_count(l@.skip(k as int), rem as int),
        decreases l@.len() - k,
    {
        let w = width_of(l[k]);
        assert(l@.skip(k as int)[0] == l@[k as int]);
        assert(l@.skip(k as int).skip(1) == l@.skip(k + 1));
        rem = rem - w;
        k = k + 1;
    }
    assert(k < l@.len() ==> l@.skip(k as int)[0] == l@[k as int]);
    k
}

// ── Public literal evaluation ──────────────────────────────────

/// Evaluates a string literal token: strips the outer quotes and processes
/// escape sequences.
///
/// The first and last characters must each be one byte long (a quote), as
/// the token is cut by byte offsets.
pub fn eval_string(text: &str) -> (r: String)
    requires
        text@.len() >= 2,
        char_width(text@[0]) == 1,
        char_width(text@.last()) == 1,
    ensures
        r@ == spec_process_escapes(text@.subrange(1, text@.len() - 1)),
{
    let cs = to_chars(text);
    let inner = slice_chars(&cs, 1, cs.len() - 1);
    let out = process_escapes_chars(&inner);
    from_chars(out.as_slice())
}

fn slice_chars(v: &Vec<char>, a: usize, b: usize) -> (r: Vec<char>)
    requires
        a <= b <= v@.len(),
    ensures
        r@ == v@.subrange(a as int, b as int),
{
    let mut r: Vec<char> = Vec::new();
    let mut i: usize = a;
    while i < b
        invariant
            a <= i <= b <= v@.len(),
            r@ == v@.subrange(a as int, i as int),
        decreases b - i,
    {
        r.push(v[i]);
        assert(v@.subrange(a as int, i + 1) == v@.subrange(a as int, i as int).push(
            v@[i as int],
        ));
        i = i + 1;
    }
    r
}

/// The characters of `s` between byte offsets 3 and `len - 3`.
pub open spec fn triple_inner(s: Seq<char>) -> Seq<char> {
    s.subrange(char_at_byte(s, 3), char_at_byte(s, byte_len(s) - 3))
}

/// A triple-quoted token can be cut at byte 3 and at 3 bytes before its end.
pub open spec fn triple_cuttable(s: Seq<char>) -> bool {
    &&& byte_len(s) >= 6
    &&& is_boundary(s, 3)
    &&& is_boundary(s, byte_len(s) - 3)
}

/// A token that opens and closes with `"""` and is at least six bytes long,
/// as the lexer delivers a triple-quoted string.
pub open spec fn triple_quoted(s: Seq<char>) -> bool {
    &&& s.len() >= 3
    &&& byte_len(s) >= 6
    &&& s[0] == '"' && s[1] == '"' && s[2] == '"'
    &&& s[s.len() - 3] == '"' && s[s.len() - 2] == '"' && s[s.len() - 1] == '"'
}

/// A triple-quoted token can be cut at its delimiters, so evaluating it
/// never panics.
pub proof fn lemma_triple_quoted_cuttable(s: Seq<char>)
    requires
        triple_quoted(s),
    ensures
        triple_cuttable(s),
{
    let n = s.len() as int;
    assert(char_width('"') == 1);
    assert forall|k: int| 1 <= k <= 3 implies byte_len(#[trigger] s.take(k)) == byte_len(s.take(k - 1)) + 1 by {
        assert(s.take(k).drop_last() =~= s.take(k - 1));
        assert(s.take(k).last() == s[k - 1]);
    }
    assert(s.take(0) =~= Seq::<char>::empty());
    assert(byte_len(s.take(1)) == 1);
    assert(byte_len(s.take(2)) == 2);
    assert(byte_len(s.take(3)) == 3);
    assert forall|k: int| n - 2 <= k <= n implies byte_len(#[trigger] s.take(k)) == byte_len(s.take(k - 1)) + 1 by {
        assert(s.take(k).drop_last() =~= s.take(k - 1));
        assert(s.take(k).last() == s[k - 1]);
    }
    assert(s.take(n) =~= s);
    assert(byte_len(s.take(n - 1)) == byte_len(s) - 1);
    assert(byte_len(s.take(n - 2)) == byte_len(s) - 2);
    assert(byte_len(s.take(n - 3)) == byte_len(s) - 3);
}

/// Evaluates a triple-quoted string literal: strips the `"""` delimiters,
/// processes escape sequences, then applies auto-dedent.
pub fn eval_triple_string(text: &str) -> (r: String)
    requires
        triple_cuttable(text@),
    ensures
        r@ == spec_dedent(spec_process_escapes(triple_inner(text@))),
{
    let cs = to_chars(text);
    let total = byte_length(&cs);
    let a = char_index_of_byte(&cs, 3);
    let b = char_index_of_byte(&cs, total - 3);
    match (a, b) {
        (Some(a), Some(b)) => {
            proof {
                lemma_char_at_byte(cs@, 3, a as int);
                lemma_char_at_byte(cs@, total - 3, b as int);
                if b < a {
                    lemma_byte_len_strict(cs@, b as int, a as int);
                }
            }
            let inner = slice_chars(&cs, a, b);
            let escaped = process_escapes_chars(&inner);
            let out = dedent(&escaped);
            from_chars(out.as_slice())
        },
        _ => String::new(),
    }
}

/// Parses an integer literal token as `u64`.
pub fn eval_integer(text: &str) -> (r: Option<u64>)
    ensures
        r == spec_parse_u64(text@),
{
    let cs = to_chars(text);
    assert(cs@.subrange(0, cs@.len() as int) == cs@);
    parse_u64(&cs, 0, cs.len())
}

/// Parses a signed integer literal token as `i64`.
pub fn eval_signed_integer(text: &str) -> (r: Option<i64>)
    ensures
        r == spec_parse_i64(text@),
{
    let cs = to_chars(text);
    assert(cs@.subrange(0, cs@.len() as int) == cs@);
    parse_i64(&cs, 0, cs.len())
}

/// Strips the angle brackets from a URI literal: `<scheme:body>` → `scheme:body`.
pub fn eval_uri(text: &str) -> (r: String)
    requires
        text@.len() >= 2,
        char_width(text@[0]) == 1,
        char_width(text@.last()) == 1,
    ensures
        r@ == text@.subrange(1, text@.len() - 1),
{
    let cs = to_chars(text);
    let inner = slice_chars(&cs, 1, cs.len() - 1);
    from_chars(inner.as_slice())
}

/// Strips the `#` prefix from an atom literal: `#confirmed` → `confirmed`.
pub fn eval_atom(text: &str) -> (r: String)
    requires
        text@.len() >= 1,
        char_width(text@[0]) == 1,
    ensures
        r@ == text@.skip(1),
{
    let cs = to_chars(text);
    let inner = slice_chars(&cs, 1, cs.len());
    from_chars(inner.as_slice())
}

/// Strips the `@` prefix from a name token: `@foo.bar` → `foo.bar`.
pub fn eval_name(text: &str) -> (r: String)
    requires
        text@.len() >= 1,
        char_width(text@[0]) == 1,
    ensures
        r@ == text@.skip(1),
{
    let cs = to_chars(text);
    let inner = slice_chars(&cs, 1, cs.len());
    from_chars(inner.as_slice())
}

// ── Date, time and duration components ─────────────────────────

/// `YYYY-MM-DD` read as `text.splitn(3, '-')`: three parts, each an unsigned
/// integer.
pub open spec fn spec_parse_date(s: Seq<char>) -> Option<(u64, u64, u64)> {
    match spec_split_once(s, '-') {
        None => None,
        Some((y, rest)) => match spec_split_once(rest, '-') {
            None => None,
            Some((m, d)) => match (spec_parse_u64(y), spec_parse_u64(m), spec_parse_u64(d)) {
                (Some(y), Some(m), Some(d)) => Some((y, m, d)),
                _ => None,
            },
        },
    }
}

/// `HH:MM` or `HH:MM:SS` read as `text.splitn(3, ':')`; seconds default to 0.
pub open spec fn spec_parse_time(s: Seq<char>) -> Option<(u64, u64, u64)> {
    match spec_split_once(s, ':') {
        None => None,
        Some((h, rest)) => match spec_split_once(rest, ':') {
            None => match (spec_parse_u64(h), spec_parse_u64(rest)) {
                (Some(h), Some(m)) => Some((h, m, 0)),
                _ => None,
            },
            Some((m, sec)) => match (spec_parse_u64(h), spec_parse_u64(m), spec_parse_u64(sec)) {
                (Some(h), Some(m), Some(sec)) => Some((h, m, sec)),
                _ => None,
            },
        },
    }
}

proof fn lemma_split_at(s: Seq<char>, c: char, i: int, from: int, end: int, whole: Seq<char>)
    requires
        0 <= from <= i < end <= whole.len(),
        s == whole.subrange(from, end),
        spec_find(s, c) == Some(i - from),
    ensures
        spec_split_once(s, c) == Some(
            (whole.subrange(from, i), whole.subrange(i + 1, end)),
        ),
{
    assert(s.take(i - from) == whole.subrange(from, i));
    assert(s.skip(i - from + 1) == whole.subrange(i + 1, end));
}

/// Parses date components `(year, month, day)`.
pub fn parse_date_components(text: &str) -> (r: Option<(u64, u64, u64)>)
    ensures
        r == spec_parse_date(text@),
{
    let cs = to_chars(text);
    let n = cs.len();
    assert(cs@.subrange(0, n as int) == cs@);
    let i = match find_from(&cs, '-', 0, n) {
        Some(i) => i,
        None => return None,
    };
    proof {
        lemma_split_at(cs@, '-', i as int, 0, n as int, cs@);
    }
    let j = match find_from(&cs, '-', i + 1, n) {
        Some(j) => j,
        None => return None,
    };
    proof {
        lemma_split_at(cs@.subrange(i + 1, n as int), '-', j as int, i + 1, n as int, cs@);
    }
    let year = match parse_u64(&cs, 0, i) {
        Some(v) => v,
        None => return None,
    };
    let month = match parse_u64(&cs, i + 1, j) {
        Some(v) => v,
        None => return None,
    };
    let day = match parse_u64(&cs, j + 1, n) {
        Some(v) => v,
        None => return None,
    };
    Some((year, month, day))
}

/// Parses time components `(hour, minute, second)`; seconds default to 0.
pub fn parse_time_components(text: &str) -> (r: Option<(u64, u64, u64)>)
    ensures
        r == spec_parse_time(text@),
{
    let cs = to_chars(text);
    let n = cs.len();
    assert(cs@.subrange(0, n as int) == cs@);
    let i = match find_from(&cs, ':', 0, n) {
        Some(i) => i,
        None => return None,
    };
    proof {
        lemma_split_at(cs@, ':', i as int, 0, n as int, cs@);
    }
    match find_from(&cs, ':', i + 1, n) {
        None => {
            let hour = match parse_u64(&cs, 0, i) {
                Some(v) => v,
                None => return None,
            };
            let minute = match parse_u64(&cs, i + 1, n) {
                Some(v) => v,
                None => return None,
            };
            Some((hour, minute, 0))
        },
        Some(j) => {
            proof {
                lemma_split_at(cs@.subrange(i + 1, n as int), ':', j as int, i + 1, n as int, cs@);
            }
            let hour = match parse_u64(&cs, 0, i) {
                Some(v) => v,
                None => return None,
            };
            let minute = match parse_u64(&cs, i + 1, j) {
                Some(v) => v,
                None => return None,
            };
            let second = match parse_u64(&cs, j + 1, n) {
                Some(v) => v,
                None => return None,
            };
            Some((hour, minute, second))
        },
    }
}

/// Parsed duration components.
#[derive(Debug, Clone, Copy, PartialEq, Eq)]
pub struct DurationParts {
    pub positive: bool,
    pub weeks: u64,
    pub days: u64,
    pub hours: u64,
    pub minutes: u64,
    pub seconds: u64,
}

/// A duration unit letter.
pub open spec fn is_unit(c: char) -> bool {
    c == 'w' || c == 'd' || c == 'h' || c == 'm' || c == 's'
}

/// The parts with the component named by unit `c` set to `n`.
pub open spec fn set_unit(p: DurationParts, c: char, n: u64) -> DurationParts {
    if c == 'w' {
        DurationParts { weeks: n, ..p }
    } else if c == 'd' {
        DurationParts { days: n, ..p }
    } else if c == 'h' {
        DurationParts { hours: n, ..p }
    } else if c == 'm' {
        DurationParts { minutes: n, ..p }
    } else {
        DurationParts { seconds: n, ..p }
    }
}

/// Scans the body of a duration from character `i`, where the current
/// number began at `start`: each unit letter sets its component to the
/// number before it; any other non-digit, or a unit with no valid number
/// before it, rejects the text, and so do digits left without a unit at the
/// end and a body with no unit at all.
pub open spec fn spec_scan_duration(s: Seq<char>, i: int, start: int, p: DurationParts) -> Option<
    DurationParts,
>
    decreases s.len() - i,
{
    if i < 0 || start < 0 || start > i {
        None
    } else if i >= s.len() {
        if start == s.len() && s.len() > 0 {
            Some(p)
        } else {
            None
        }
    } else {
        let c = s[i];
        if is_unit(c) {
            match spec_parse_u64(s.subrange(start, i)) {
                Some(n) => spec_scan_duration(s, i + 1, i + 1, set_unit(p, c, n)),
                None => None,
            }
        } else if '0' <= c && c <= '9' {
            spec_scan_duration(s, i + 1, start, p)
        } else {
            None
        }
    }
}

/// A duration literal `[+|-]<int>w<int>d<int>h<int>m<int>s`.
pub open spec fn spec_parse_duration(s: Seq<char>) -> Option<DurationParts> {
    if s.len() == 0 {
        None
    } else {
        let positive = s[0] != '-';
        let rest = if s[0] == '+' || s[0] == '-' {
            s.skip(1)
        } else {
            s
        };
        spec_scan_duration(
            rest,
            0,
            0,
            DurationParts { positive, weeks: 0, days: 0, hours: 0, minutes: 0, seconds: 0 },
        )
    }
}

/// Parses a duration literal into its component parts. Every text of the
/// documented form `[+|-]<int>w<int>d<int>h<int>m<int>s` gives its parts
/// (`lemma_duration_text_parses`).
pub fn parse_duration_components(text: &str) -> (r: Option<DurationParts>)
    ensures
        r == spec_parse_duration(text@),
{
    let cs = to_chars(text);
    if cs.len() == 0 {
        return None;
    }
    let first = cs[0];
    let positive = first != '-';
    let off: usize = if first == '+' || first == '-' { 1 } else { 0 };
    let rest = slice_chars(&cs, off, cs.len());
    assert(off == 1 ==> rest@ == text@.skip(1));
    assert(off == 0 ==> rest@ == text@);
    let mut parts = DurationParts {
        positive,
        weeks: 0,
        days: 0,
        hours: 0,
        minutes: 0,
        seconds: 0,
    };
    let ghost target = spec_parse_duration(text@);
    let mut start: usize = 0;
    let mut i: usize = 0;
    while i < rest.len()
        invariant
            start <= i <= rest@.len(),
            spec_scan_duration(rest@, i as int, start as int, parts) == target,
            target == spec_parse_duration(text@),
        decreases rest@.len() - i,
    {
        let c = rest[i];
        if c == 'w' || c == 'd' || c == 'h' || c == 'm' || c == 's' {
            let n = match parse_u64(&rest, start, i) {
                Some(n) => n,
                None => return None,
            };
            if c == 'w' {
                parts.weeks = n;
            } else if c == 'd' {
                parts.days = n;
            } else if c == 'h' {
                parts.hours = n;
            } else if c == 'm' {
                parts.minutes = n;
            } else {
                parts.seconds = n;
            }
            start = i + 1;
        } else if '0' <= c && c <= '9' {
        } else {
            return None;
        }
        i = i + 1;
    }
    if start < rest.len() || rest.len() == 0 {
        return None;
    }
    Some(parts)
}

// ── The documented duration form ───────────────────────────────

proof fn lemma_scan_run(s: Seq<char>, start: int, i: int, k: int, p: DurationParts)
    requires
        0 <= start <= i <= k < s.len(),
        all_digits(s.subrange(start, k)),
        is_unit(s[k]),
        spec_parse_u64(s.subrange(start, k)) is Some,
    ensures
        spec_scan_duration(s, i, start, p) == spec_scan_duration(
            s,
            k + 1,
            k + 1,
            set_unit(p, s[k], spec_parse_u64(s.subrange(start, k))->Some_0),
        ),
    decreases k - i,
{
    if i < k {
        assert(s[i] == s.subrange(start, k)[i - start]);
        assert(is_digit(s.subrange(start, k)[i - start]));
        lemma_scan_run(s, start, i + 1, k, p);
    }
}

proof fn lemma_scan_at(s: Seq<char>, start: int, n: u64, u: char, p: DurationParts)
    requires
        is_unit(u),
        0 <= start,
        start + spec_nat_to_dec(n as nat).len() < s.len(),
        s.subrange(start, start + spec_nat_to_dec(n as nat).len()) == spec_nat_to_dec(n as nat),
        s[start + spec_nat_to_dec(n as nat).len()] == u,
    ensures
        spec_scan_duration(s, start, start, p) == spec_scan_duration(
            s,
            start + spec_nat_to_dec(n as nat).len() + 1,
            start + spec_nat_to_dec(n as nat).len() + 1,
            set_unit(p, u, n),
        ),
{
    lemma_dec_reads_back(n as nat);
    lemma_dec_parses(n);
    lemma_scan_run(s, start, start, start + spec_nat_to_dec(n as nat).len(), p);
}

/// Scanning text that holds the decimal text of `n` then unit `u` at
/// `start`, followed by the rest.
proof fn lemma_scan_seg(pre: Seq<char>, n: u64, u: char, post: Seq<char>, s: Seq<char>, p: DurationParts)
    requires
        is_unit(u),
        s == pre + (spec_nat_to_dec(n as nat) + seq![u]) + post,
    ensures
        spec_scan_duration(s, pre.len() as int, pre.len() as int, p) == spec_scan_duration(
            s,
            (pre.len() + spec_nat_to_dec(n as nat).len() + 1) as int,
            (pre.len() + spec_nat_to_dec(n as nat).len() + 1) as int,
            set_unit(p, u, n),
        ),
{
    let t = spec_nat_to_dec(n as nat);
    let k = pre.len() + t.len();
    assert(s.subrange(pre.len() as int, k as int) =~= t);
    assert(s[k as int] == u);
    lemma_scan_at(s, pre.len() as int, n, u, p);
}

/// The text of a duration in the documented form: an optional sign, then
/// weeks, days, hours, minutes and seconds, each in decimal before its
/// unit letter.
pub open spec fn duration_text(sign: Seq<char>, w: u64, d: u64, h: u64, m: u64, sec: u64) -> Seq<char> {
    sign + spec_nat_to_dec(w as nat) + seq!['w'] + spec_nat_to_dec(d as nat) + seq!['d']
        + spec_nat_to_dec(h as nat) + seq!['h'] + spec_nat_to_dec(m as nat) + seq!['m']
        + spec_nat_to_dec(sec as nat) + seq!['s']
}

/// A duration written in the documented form `[+|-]<int>w<int>d<int>h<int>m<int>s`
/// parses to its parts: negative exactly when the sign is `-`.
#[verifier::spinoff_prover]
#[verifier::rlimit(40)]
pub proof fn lemma_duration_text_parses(sign: Seq<char>, w: u64, d: u64, h: u64, m: u64, sec: u64)
    requires
        sign == Seq::<char>::empty() || sign == seq!['+'] || sign == seq!['-'],
    ensures
        spec_parse_duration(duration_text(sign, w, d, h, m, sec)) == Some(
            DurationParts {
                positive: sign != seq!['-'],
                weeks: w,
                days: d,
                hours: h,
                minutes: m,
                seconds: sec,
            },
        ),
{
    let a = spec_nat_to_dec(w as nat) + seq!['w'];
    let b = spec_nat_to_dec(d as nat) + seq!['d'];
    let c = spec_nat_to_dec(h as nat) + seq!['h'];
    let e = spec_nat_to_dec(m as nat) + seq!['m'];
    let f = spec_nat_to_dec(sec as nat) + seq!['s'];
    let body = a + b + c + e + f;
    let text = duration_text(sign, w, d, h, m, sec);
    assert(text =~= sign + body);
    lemma_dec_reads_back(w as nat);
    let positive = sign != seq!['-'];
    if sign.len() == 0 {
        assert(text =~= body);
        assert(is_digit(body[0]));
    } else {
        assert(text[0] == sign[0]);
        assert(text.skip(1) =~= body);
    }
    let p0 = DurationParts { positive, weeks: 0, days: 0, hours: 0, minutes: 0, seconds: 0 };
    lemma_body_scan(w, d, h, m, sec, p0);
}

#[verifier::spinoff_prover]
proof fn lemma_body_scan(w: u64, d: u64, h: u64, m: u64, sec: u64, p0: DurationParts)
    ensures
        ({
            let body = (spec_nat_to_dec(w as nat) + seq!['w']) + (spec_nat_to_dec(d as nat) + seq!['d'])
                + (spec_nat_to_dec(h as nat) + seq!['h']) + (spec_nat_to_dec(m as nat) + seq!['m'])
                + (spec_nat_to_dec(sec as nat) + seq!['s']);
            spec_scan_duration(body, 0, 0, p0) == Some(
                DurationParts { positive: p0.positive, weeks: w, days: d, hours: h, minutes: m, seconds: sec },
            )
        }),
{
    let a = spec_nat_to_dec(w as nat) + seq!['w'];
    let b = spec_nat_to_dec(d as nat) + seq!['d'];
    let c = spec_nat_to_dec(h as nat) + seq!['h'];
    let e = spec_nat_to_dec(m as nat) + seq!['m'];
    let f = spec_nat_to_dec(sec as nat) + seq!['s'];
    let body = a + b + c + e + f;
    let empty = Seq::<char>::empty();
    assert(body =~= empty + a + (b + c + e + f));
    lemma_scan_seg(empty, w, 'w', b + c + e + f, body, p0);
    let p1 = set_unit(p0, 'w', w);
    assert(body =~= a + b + (c + e + f));
    lemma_scan_seg(a, d, 'd', c + e + f, body, p1);
    let p2 = set_unit(p1, 'd', d);
    assert(body =~= (a + b) + c + (e + f));
    lemma_scan_seg(a + b, h, 'h', e + f, body, p2);
    let p3 = set_unit(p2, 'h', h);
    assert(body =~= (a + b + c) + e + f);
    lemma_scan_seg(a + b + c, m, 'm', f, body, p3);
    let p4 = set_unit(p3, 'm', m);
    assert(body =~= (a + b + c + e) + f + empty);
    lemma_scan_seg(a + b + c + e, sec, 's', empty, body, p4);
    let p5 = set_unit(p4, 's', sec);
    assert(spec_scan_duration(body, body.len() as int, body.len() as int, p5) == Some(p5));
}

} // verus!
