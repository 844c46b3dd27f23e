//! Reading the plain values that writing a calendar out needs: strings and
//! integers of a record's fields, sets of strings, extension-property
//! names, and base64-encoded attachments.
use vstd::prelude::*;
use vstd::utf8::{encode_utf8, is_ascii_chars, is_ascii_chars_encode_utf8};

use crate::ical_import::{b64_digit, base64};
use crate::import_value::{ImportRecord, ImportValue, ImportView};
use crate::keyed::key_lookup;
use crate::text::{from_chars, str_eq, to_chars};

verus! {

broadcast use {crate::types::lemma_value_view_unfold, crate::import_value::lemma_import_view_unfold};

// ── Values ─────────────────────────────────────────────────────

/// The text of a string value.
pub fn as_str(v: &ImportValue) -> (r: Option<&str>)
    ensures
        match v@ {
            ImportView::String(s) => r is Some && r->Some_0@ == s,
            _ => r is None,
        },
{
    match v {
        ImportValue::String(s) => Some(s.as_str()),
        _ => None,
    }
}

/// An integer value as `u64`, where it is one that fits.
pub fn import_value_to_u64(v: &ImportValue) -> (r: Option<u64>)
    ensures
        r == match v@ {
            ImportView::Integer(n) => Some(n),
            ImportView::SignedInteger(n) => if n >= 0 {
                Some(n as u64)
            } else {
                None
            },
            _ => None,
        },
{
    match v {
        ImportValue::Integer(n) => Some(*n),
        ImportValue::SignedInteger(n) => if *n >= 0 {
            Some(*n as u64)
        } else {
            None
        },
        _ => None,
    }
}

/// An integer value as `i64`, where it is one that fits.
pub fn import_value_to_i64(v: &ImportValue) -> (r: Option<i64>)
    ensures
        r == match v@ {
            ImportView::Integer(n) => if n <= i64::MAX {
                Some(n as i64)
            } else {
                None
            },
            ImportView::SignedInteger(n) => Some(n),
            _ => None,
        },
{
    match v {
        ImportValue::Integer(n) => if *n <= 0x7fff_ffff_ffff_ffff {
            Some(*n as i64)
        } else {
            None
        },
        ImportValue::SignedInteger(n) => Some(*n),
        _ => None,
    }
}

/// An integer value as `i32`, where it is one that fits.
pub fn import_value_to_i32(v: &ImportValue) -> (r: Option<i32>)
    ensures
        r == match v@ {
            ImportView::Integer(n) => if n <= i32::MAX {
                Some(n as i32)
            } else {
                None
            },
            ImportView::SignedInteger(n) => if i32::MIN <= n <= i32::MAX {
                Some(n as i32)
            } else {
                None
            },
            _ => None,
        },
{
    match v {
        ImportValue::Integer(n) => if *n <= 0x7fff_ffff {
            Some(*n as i32)
        } else {
            None
        },
        ImportValue::SignedInteger(n) => if -0x8000_0000 <= *n && *n <= 0x7fff_ffff {
            Some(*n as i32)
        } else {
            None
        },
        _ => None,
    }
}

// ── Fields ─────────────────────────────────────────────────────

/// The text of a string field.
pub fn get_str<'a>(record: &'a ImportRecord, key: &str) -> (r: Option<&'a str>)
    ensures
        match key_lookup(record@, key@) {
            Some(ImportView::String(s)) => r is Some && r->Some_0@ == s,
            _ => r is None,
        },
{
    match record.get(key) {
        Some(v) => as_str(v),
        None => None,
    }
}

/// An unsigned integer field.
pub fn get_u64(record: &ImportRecord, key: &str) -> (r: Option<u64>)
    ensures
        r == match key_lookup(record@, key@) {
            Some(ImportView::Integer(n)) => Some(n),
            _ => None,
        },
{
    match record.get(key) {
        Some(ImportValue::Integer(n)) => Some(*n),
        _ => None,
    }
}

/// An integer field as `i64`, where it fits.
pub fn get_i64(record: &ImportRecord, key: &str) -> (r: Option<i64>)
    ensures
        r == match key_lookup(record@, key@) {
            Some(ImportView::Integer(n)) => if n <= i64::MAX {
                Some(n as i64)
            } else {
                None
            },
            Some(ImportView::SignedInteger(n)) => Some(n),
            _ => None,
        },
{
    match record.get(key) {
        Some(v) => import_value_to_i64(v),
        None => None,
    }
}

/// A boolean field.
pub fn get_bool(record: &ImportRecord, key: &str) -> (r: Option<bool>)
    ensures
        r == match key_lookup(record@, key@) {
            Some(ImportView::Bool(b)) => Some(b),
            _ => None,
        },
{
    match record.get(key) {
        Some(ImportValue::Bool(b)) => Some(*b),
        _ => None,
    }
}

/// The strings of a list, each once, in the order of their first occurrence.
pub open spec fn distinct_strings(items: Seq<ImportView>) -> Seq<Seq<char>>
    decreases items.len(),
{
    if items.len() == 0 {
        seq![]
    } else {
        let before = distinct_strings(items.drop_last());
        match items.last() {
            ImportView::String(s) => if before.contains(s) {
                before
            } else {
                before.push(s)
            },
            _ => before,
        }
    }
}

/// The set of strings in a list field; `None` when the field is not a list
/// or holds no string. Each string comes once, in the order of its first
/// occurrence.
pub fn get_string_set(record: &ImportRecord, key: &str) -> (r: Option<Vec<String>>)
    ensures
        match key_lookup(record@, key@) {
            Some(ImportView::List(items)) => if distinct_strings(items).len() == 0 {
                r is None
            } else {
                r matches Some(v) && v@.map_values(|s: String| s@) == distinct_strings(items)
            },
            _ => r is None,
        },
{
    let items = match record.get(key) {
        Some(ImportValue::List(items)) => items,
        _ => return None,
    };
    let ghost iv = ImportValue::List(*items)@->List_0;
    proof {
        crate::import_value::lemma_import_list_view(*items);
    }
    let mut out: Vec<String> = Vec::new();
    for i in 0..items.len()
        invariant
            iv.len() == items@.len(),
            forall|j: int| 0 <= j < items@.len() ==> #[trigger] iv[j] == items@[j]@,
            out@.map_values(|s: String| s@) == distinct_strings(iv.take(i as int)),
    {
        let ghost before = out@.map_values(|s: String| s@);
        assert(iv.take(i + 1).drop_last() =~= iv.take(i as int));
        if let ImportValue::String(s) = &items[i] {
            let mut seen = false;
            for j in 0..out.len()
                invariant
                    before == out@.map_values(|s: String| s@),
                    seen == exists|k: int| 0 <= k < j && before[k] == s@,
            {
                assert(before[j as int] == out@[j as int]@);
                if str_eq(out[j].as_str(), s.as_str()) {
                    seen = true;
                }
            }
            if !seen {
                out.push(s.clone());
                assert(out@.map_values(|s: String| s@) =~= before.push(s@));
            } else {
                assert(before.contains(s@));
            }
        }
    }
    assert(iv.take(items@.len() as int) =~= iv);
    if out.len() == 0 {
        None
    } else {
        Some(out)
    }
}

// ── Extension property names ───────────────────────────────────

/// The uppercase form of a string, as `str::to_uppercase` gives it.
pub uninterp spec fn uppercase(s: Seq<char>) -> Seq<char>;

/// Calls `str::to_uppercase`, which maps each character to its Unicode
/// uppercase form; the result depends on the string alone.
#[verifier::external_body]
pub(crate) fn to_uppercase(s: &str) -> (r: String)
    ensures
        r@ == uppercase(s@),
{
    s.to_uppercase()
}

/// Every `_` of `s` replaced by `-`.
pub open spec fn dashes_for_underscores(s: Seq<char>) -> Seq<char> {
    s.map_values(|c: char| if c == '_' { '-' } else { c })
}

/// The iCalendar property name of a field: uppercase, with `-` for `_`
/// (`x_foo_bar` becomes `X-FOO-BAR`).
pub fn field_name_to_x_property(key: &str) -> (r: String)
    ensures
        r@ == dashes_for_underscores(uppercase(key@)),
{
    let upper = to_uppercase(key);
    let cs = to_chars(upper.as_str());
    let mut out: Vec<char> = Vec::new();
    for i in 0..cs.len()
        invariant
            out@ == dashes_for_underscores(cs@.take(i as int)),
    {
        let c = cs[i];
        out.push(if c == '_' { '-' } else { c });
        assert(cs@.take(i + 1) =~= cs@.take(i as int).push(c));
        assert(out@ =~= dashes_for_underscores(cs@.take(i + 1)));
    }
    assert(cs@.take(cs@.len() as int) =~= cs@);
    from_chars(out.as_slice())
}


// ── Base64 ─────────────────────────────────────────────────────

/// Whitespace that base64 decoding skips: space, tab, line feed, form
/// feed and carriage return.
pub open spec fn is_b64_space(c: char) -> bool {
    c == ' ' || c == '\t' || c == '\n' || c == '\x0C' || c == '\r'
}

/// `s` without its whitespace.
pub open spec fn strip_spaces(s: Seq<char>) -> Seq<char>
    decreases s.len(),
{
    if s.len() == 0 {
        seq![]
    } else if is_b64_space(s.last()) {
        strip_spaces(s.drop_last())
    } else {
        strip_spaces(s.drop_last()).push(s.last())
    }
}

/// The value of a base64 digit byte; `=` counts as zero.
pub open spec fn b64_value(b: u8) -> Option<u8> {
    if 65 <= b <= 90 {
        Some((b - 65) as u8)
    } else if 97 <= b <= 122 {
        Some((b - 97 + 26) as u8)
    } else if 48 <= b <= 57 {
        Some((b - 48 + 52) as u8)
    } else if b == 43 {
        Some(62u8)
    } else if b == 47 {
        Some(63u8)
    } else if b == 61 {
        Some(0u8)
    } else {
        None
    }
}

/// The bytes one group of (at most four) digit bytes stands for: one, two
/// or three, as far as the group goes before its padding.
pub open spec fn decode_group(g: Seq<u8>) -> Option<Seq<u8>> {
    if g.len() < 2 {
        None
    } else {
        match (b64_value(g[0]), b64_value(g[1])) {
            (Some(v0), Some(v1)) => {
                let o0 = (v0 * 4 + v1 / 16) as u8;
                if g.len() > 2 && g[2] != 61 {
                    match b64_value(g[2]) {
                        Some(v2) => {
                            let o1 = ((v1 % 16) * 16 + v2 / 4) as u8;
                            if g.len() > 3 && g[3] != 61 {
                                match b64_value(g[3]) {
                                    Some(v3) => Some(seq![o0, o1, ((v2 % 4) * 64 + v3) as u8]),
                                    None => None,
                                }
                            } else {
                                Some(seq![o0, o1])
                            }
                        },
                        None => None,
                    }
                } else {
                    Some(seq![o0])
                }
            },
            _ => None,
        }
    }
}

/// Base64 decoding of digit bytes, group of four by group of four.
pub open spec fn b64_decode(b: Seq<u8>) -> Option<Seq<u8>>
    decreases b.len(),
{
    if b.len() == 0 {
        Some(seq![])
    } else {
        let n = if b.len() < 4 {
            b.len() as int
        } else {
            4
        };
        match decode_group(b.take(n)) {
            Some(out) => match b64_decode(b.skip(n)) {
                Some(rest) => Some(out + rest),
                None => None,
            },
            None => None,
        }
    }
}

fn b64_value_of(b: u8) -> (r: Option<u8>)
    ensures
        r == b64_value(b),
        r matches Some(v) ==> v < 64,
{
    if 65 <= b && b <= 90 {
        Some(b - 65)
    } else if 97 <= b && b <= 122 {
        Some(b - 97 + 26)
    } else if 48 <= b && b <= 57 {
        Some(b - 48 + 52)
    } else if b == 43 {
        Some(62)
    } else if b == 47 {
        Some(63)
    } else if b == 61 {
        Some(0)
    } else {
        None
    }
}

/// Decodes standard base64, skipping whitespace; `None` when a group of
/// digits is short or holds a byte that is not a digit.
pub fn base64_decode(s: &str) -> (r: Option<Vec<u8>>)
    ensures
        match b64_decode(encode_utf8(strip_spaces(s@))) {
            Some(d) => r matches Some(v) && v@ == d,
            None => r is None,
        },
{
    let cs = to_chars(s);
    let mut kept: Vec<char> = Vec::new();
    for i in 0..cs.len()
        invariant
            cs@ == s@,
            kept@ == strip_spaces(cs@.take(i as int)),
    {
        let c = cs[i];
        assert(cs@.take(i + 1).drop_last() =~= cs@.take(i as int));
        if !(c == ' ' || c == '\t' || c == '\n' || c == '\x0C' || c == '\r') {
            kept.push(c);
        }
    }
    assert(cs@.take(cs@.len() as int) =~= cs@);
    let text = from_chars(kept.as_slice());
    let bytes = text.as_str().as_bytes();
    let ghost b = bytes@;
    assert(b == encode_utf8(strip_spaces(s@)));
    let mut out: Vec<u8> = Vec::new();
    let mut i: usize = 0;
    assert(b.skip(0) =~= b);
    while i < bytes.len()
        invariant
            i <= b.len(),
            bytes@ == b,
            b == encode_utf8(strip_spaces(s@)),
            b64_decode(b) == match b64_decode(b.skip(i as int)) {
                Some(rest) => Some(out@ + rest),
                None => None::<Seq<u8>>,
            },
        decreases b.len() - i,
    {
        let ghost tail = b.skip(i as int);
        let n: usize = if bytes.len() - i < 4 {
            bytes.len() - i
        } else {
            4
        };
        let ghost g = tail.take(n as int);
        assert(tail.skip(n as int) =~= b.skip(i + n));
        assert forall|k: int| 0 <= k < n implies #[trigger] g[k] == bytes@[i + k] by {}
        if n < 2 {
            return None;
        }
        let v0 = match b64_value_of(bytes[i]) {
            Some(v) => v,
            None => return None,
        };
        let v1 = match b64_value_of(bytes[i + 1]) {
            Some(v) => v,
            None => return None,
        };
        let ghost before = out@;
        out.push(v0 * 4 + v1 / 16);
        if n > 2 && bytes[i + 2] != 61 {
            let v2 = match b64_value_of(bytes[i + 2]) {
                Some(v) => v,
                None => return None,
            };
            out.push((v1 % 16) * 16 + v2 / 4);
            if n > 3 && bytes[i + 3] != 61 {
                let v3 = match b64_value_of(bytes[i + 3]) {
                    Some(v) => v,
                    None => return None,
                };
                out.push((v2 % 4) * 64 + v3);
            }
        }
        proof {
            let d = decode_group(g);
            assert(d is Some);
            assert(out@ =~= before + d->Some_0);
        }
        i = i + n;
    }
    assert(b.skip(i as int) =~= Seq::<u8>::empty());
    Some(out)
}

proof fn lemma_b64_value_of_digit(n: int)
    requires
        0 <= n < 64,
    ensures
        b64_value(b64_digit(n) as u8) == Some(n as u8),
        b64_digit(n) != '=',
        '\0' <= b64_digit(n) <= '\u{7f}',
        !is_b64_space(b64_digit(n)),
{
}

proof fn lemma_base64_ascii(data: Seq<u8>)
    ensures
        is_ascii_chars(base64(data)),
        forall|i: int| 0 <= i < base64(data).len() ==> !is_b64_space(#[trigger] base64(data)[i]),
        base64(data).len() == 4 * ((data.len() + 2) / 3),
    decreases data.len(),
{
    if data.len() >= 3 {
        lemma_base64_ascii(data.skip(3));
    }
    let out = base64(data);
    if data.len() > 0 {
        lemma_b64_value_of_digit(data[0] as int / 4);
    }
    if data.len() == 1 {
        lemma_b64_value_of_digit((data[0] as int % 4) * 16);
    } else if data.len() >= 2 {
        lemma_b64_value_of_digit((data[0] as int % 4) * 16 + data[1] as int / 16);
        if data.len() == 2 {
            lemma_b64_value_of_digit((data[1] as int % 16) * 4);
        } else {
            lemma_b64_value_of_digit((data[1] as int % 16) * 4 + data[2] as int / 64);
            lemma_b64_value_of_digit(data[2] as int % 64);
        }
    }
}

proof fn lemma_strip_spaces_none(s: Seq<char>)
    requires
        forall|i: int| 0 <= i < s.len() ==> !is_b64_space(#[trigger] s[i]),
    ensures
        strip_spaces(s) == s,
    decreases s.len(),
{
    if s.len() > 0 {
        lemma_strip_spaces_none(s.drop_last());
        assert(s.drop_last().push(s.last()) =~= s);
    }
}

proof fn lemma_decode_bytes_of_base64(data: Seq<u8>, b: Seq<u8>)
    requires
        b.len() == base64(data).len(),
        forall|i: int| 0 <= i < b.len() ==> #[trigger] b[i] == base64(data)[i] as u8,
    ensures
        b64_decode(b) == Some(data),
    decreases data.len(),
{
    lemma_base64_ascii(data);
    if data.len() == 0 {
    } else {
        let c = base64(data);
        let g = b.take(4);
        assert(b.len() >= 4);
        let d0 = data[0] as int;
        lemma_b64_value_of_digit(d0 / 4);
        if data.len() == 1 {
            lemma_b64_value_of_digit((d0 % 4) * 16);
            assert(b.skip(4) =~= Seq::<u8>::empty());
            assert(decode_group(g) == Some(seq![data[0]]));
            assert(data =~= seq![data[0]]);
        } else if data.len() == 2 {
            let d1 = data[1] as int;
            lemma_b64_value_of_digit((d0 % 4) * 16 + d1 / 16);
            lemma_b64_value_of_digit((d1 % 16) * 4);
            assert(b.skip(4) =~= Seq::<u8>::empty());
            assert(decode_group(g) == Some(seq![data[0], data[1]]));
            assert(data =~= seq![data[0], data[1]]);
        } else {
            let d1 = data[1] as int;
            let d2 = data[2] as int;
            lemma_b64_value_of_digit((d0 % 4) * 16 + d1 / 16);
            lemma_b64_value_of_digit((d1 % 16) * 4 + d2 / 64);
            lemma_b64_value_of_digit(d2 % 64);
            assert(decode_group(g) == Some(seq![data[0], data[1], data[2]]));
            let rest = data.skip(3);
            assert(base64(data) == c.take(4) + base64(rest));
            assert forall|i: int| 0 <= i < b.skip(4).len() implies #[trigger] b.skip(4)[i]
                == base64(rest)[i] as u8 by {
                assert(b.skip(4)[i] == b[i + 4]);
                assert(c[i + 4] == base64(rest)[i]);
            }
            lemma_decode_bytes_of_base64(rest, b.skip(4));
            assert(seq![data[0], data[1], data[2]] + rest =~= data);
        }
    }
}

/// Decoding what base64 encoding wrote gives back the bytes encoded.
pub proof fn lemma_base64_round_trip(data: Seq<u8>)
    ensures
        b64_decode(encode_utf8(strip_spaces(base64(data)))) == Some(data),
{
    lemma_base64_ascii(data);
    lemma_strip_spaces_none(base64(data));
    is_ascii_chars_encode_utf8(base64(data));
    lemma_decode_bytes_of_base64(data, encode_utf8(base64(data)));
}
} // verus!
