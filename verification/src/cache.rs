//! The decisions of the on-disk cache of URI imports: the key of a URL, the
//! names of its two files, when an entry is fresh, when it has expired, and
//! what is recorded with fetched content. Reading and writing the files,
//! and the clock, are the caller's; every function here is deterministic.
use vstd::prelude::*;

use crate::ical_source::refresh_secs_read;
use crate::merge::{uuid_v5, uuid_v5_text};
use crate::text::{ends_with, from_chars, push_str, spec_ends_with, to_chars};

verus! {

broadcast use {crate::types::lemma_value_view_unfold, crate::import_value::lemma_import_view_unfold};

/// Refresh interval when the document names none: one day.
pub const DEFAULT_REFRESH_SECS: u64 = 86_400;

/// Entries older than this (thirty days) are always evicted.
pub const MAX_CACHE_AGE_SECS: u64 = 2_592_000;

/// The URL namespace of RFC 4122 (`6ba7b811-9dad-11d1-80b4-00c04fd430c8`).
pub const URL_NAMESPACE: u128 = 0x6ba7b811_9dad_11d1_80b4_00c04fd430c8;

/// What is recorded beside the content fetched from a URL.
pub struct CacheMeta {
    pub url: String,
    /// Seconds since the Unix epoch at which the content was fetched.
    pub fetched_at: u64,
    pub content_type: String,
    /// The document's own refresh interval, where it gives one.
    pub refresh_interval_secs: Option<u64>,
}

/// Outcome of a cache lookup.
pub enum CacheLookup {
    /// Cached content is fresh.
    Hit { content: String, content_type: String },
    /// No cache entry, or the entry is stale.
    Miss,
}

/// Seconds from `then` to `now`, zero when `now` comes first.
pub open spec fn elapsed(now: u64, then: u64) -> int {
    if now >= then {
        now - then
    } else {
        0
    }
}

/// How long an entry stays fresh.
pub open spec fn max_age(refresh_interval_secs: Option<u64>) -> u64 {
    match refresh_interval_secs {
        Some(s) => s,
        None => DEFAULT_REFRESH_SECS,
    }
}

/// The file-name suffix of an entry's metadata.
pub open spec fn meta_suffix() -> Seq<char> {
    seq!['.', 'm', 'e', 't', 'a', '.', 'j', 's', 'o', 'n']
}

/// The file-name suffix of an entry's content.
pub open spec fn content_suffix() -> Seq<char> {
    seq!['.', 'c', 'o', 'n', 't', 'e', 'n', 't']
}

/// The key of a URL: its version-5 UUID in the URL namespace.
pub fn cache_key(url: &str) -> (r: String)
    ensures
        r@ == uuid_v5(URL_NAMESPACE as u128, url@),
{
    uuid_v5_text(URL_NAMESPACE, url)
}

fn meta_suffix_chars() -> (v: Vec<char>)
    ensures
        v@ == meta_suffix(),
{
    vec!['.', 'm', 'e', 't', 'a', '.', 'j', 's', 'o', 'n']
}

/// The name of the metadata file of the entry with this key.
pub fn meta_file_name(key: &str) -> (r: String)
    ensures
        r@ == key@ + meta_suffix(),
{
    let mut v = to_chars(key);
    let s = meta_suffix_chars();
    let mut i: usize = 0;
    while i < s.len()
        invariant
            i <= s@.len(),
            s@ == meta_suffix(),
            v@ == key@ + s@.take(i as int),
        decreases s@.len() - i,
    {
        v.push(s[i]);
        i = i + 1;
        assert(s@.take(i as int) =~= s@.take((i - 1) as int).push(s@[i - 1]));
    }
    assert(s@.take(s@.len() as int) =~= s@);
    from_chars(v.as_slice())
}

/// The name of the content file of the entry with this key.
pub fn content_file_name(key: &str) -> (r: String)
    ensures
        r@ == key@ + content_suffix(),
{
    let mut v = to_chars(key);
    v.push('.');
    v.push('c');
    v.push('o');
    v.push('n');
    v.push('t');
    v.push('e');
    v.push('n');
    v.push('t');
    assert(v@ =~= key@ + content_suffix());
    from_chars(v.as_slice())
}

/// Whether an entry fetched at `fetched_at` with this refresh interval is
/// still fresh at `now`.
pub fn is_fresh(fetched_at: u64, refresh_interval_secs: Option<u64>, now: u64) -> (r: bool)
    ensures
        r == (elapsed(now, fetched_at) < max_age(refresh_interval_secs)),
{
    let max = match refresh_interval_secs {
        Some(s) => s,
        None => DEFAULT_REFRESH_SECS,
    };
    now.saturating_sub(fetched_at) < max
}

/// The outcome of a lookup, from the entry's metadata where it could be
/// read, the time, and its content where it could be read.
pub fn lookup_outcome(meta: Option<CacheMeta>, now: u64, content: Option<String>) -> (r: CacheLookup)
    ensures
        match meta {
            Some(m) => {
                if elapsed(now, m.fetched_at) < max_age(m.refresh_interval_secs) && content is Some {
                    r matches CacheLookup::Hit { content: c, content_type: t }
                        && c@ == content->Some_0@ && t@ == m.content_type@
                } else {
                    r is Miss
                }
            },
            None => r is Miss,
        },
{
    match meta {
        None => CacheLookup::Miss,
        Some(m) => {
            if !is_fresh(m.fetched_at, m.refresh_interval_secs, now) {
                return CacheLookup::Miss;
            }
            match content {
                Some(c) => CacheLookup::Hit { content: c, content_type: m.content_type },
                None => CacheLookup::Miss,
            }
        },
    }
}

/// The refresh interval recorded for fetched content: the iCalendar
/// document's own, for content fetched as iCalendar; none otherwise.
pub fn refresh_interval_for(content: &str, format_hint: &str) -> (r: Option<u64>)
    ensures
        format_hint@ != "icalendar"@ ==> r is None,
        format_hint@ == "icalendar"@ ==> refresh_secs_read(content@, r),
{
    if crate::text::str_eq(format_hint, "icalendar") {
        crate::ical_source::extract_ical_refresh_interval_secs(content)
    } else {
        None
    }
}

/// The metadata recorded for content fetched from `url` at `now`.
pub fn new_cache_meta(url: &str, content: &str, content_type: &str, format_hint: &str, now: u64) -> (r: CacheMeta)
    ensures
        r.url@ == url@,
        r.fetched_at == now,
        r.content_type@ == content_type@,
        format_hint@ != "icalendar"@ ==> r.refresh_interval_secs is None,
        format_hint@ == "icalendar"@ ==> refresh_secs_read(content@, r.refresh_interval_secs),
{
    let refresh_interval_secs = refresh_interval_for(content, format_hint);
    let u = from_chars(to_chars(url).as_slice());
    let t = from_chars(to_chars(content_type).as_slice());
    CacheMeta { url: u, fetched_at: now, content_type: t, refresh_interval_secs }
}

/// Whether an entry fetched at `fetched_at` has outlived the hard ceiling
/// at `now`.
pub fn is_expired(fetched_at: u64, now: u64) -> (r: bool)
    ensures
        r == (elapsed(now, fetched_at) >= MAX_CACHE_AGE_SECS),
{
    now.saturating_sub(fetched_at) >= MAX_CACHE_AGE_SECS
}

/// Whether a file of the cache directory is an entry's metadata.
pub fn is_meta_file_name(name: &str) -> (r: bool)
    ensures
        r == spec_ends_with(name@, meta_suffix()),
{
    let s = meta_suffix_chars();
    let suffix = from_chars(s.as_slice());
    ends_with(name, suffix.as_str())
}

/// `s` with every trailing copy of `suffix` removed.
pub open spec fn trim_suffixes(s: Seq<char>, suffix: Seq<char>) -> Seq<char>
    decreases s.len(),
{
    if suffix.len() > 0 && spec_ends_with(s, suffix) {
        trim_suffixes(s.take(s.len() - suffix.len()), suffix)
    } else {
        s
    }
}

/// The key of the entry whose metadata file has this name: the name with
/// every trailing `.meta.json` removed; `None` for any other file.
pub fn meta_stem(name: &str) -> (r: Option<String>)
    ensures
        match r {
            Some(k) => spec_ends_with(name@, meta_suffix()) && k@ == trim_suffixes(name@, meta_suffix()),
            None => !spec_ends_with(name@, meta_suffix()),
        },
{
    if !is_meta_file_name(name) {
        return None;
    }
    let s = meta_suffix_chars();
    let mut v = to_chars(name);
    let mut end: usize = v.len();
    assert(v@.take(end as int) =~= name@);
    while end >= s.len() && tail_is(&v, end, &s)
        invariant
            end <= v@.len(),
            v@ == name@,
            s@ == meta_suffix(),
            trim_suffixes(v@.take(end as int), s@) == trim_suffixes(name@, s@),
        decreases end,
    {
        assert(spec_ends_with(v@.take(end as int), s@));
        assert(v@.take(end as int).take(end - s@.len()) =~= v@.take(end - s@.len()));
        end = end - s.len();
    }
    assert(trim_suffixes(v@.take(end as int), s@) == v@.take(end as int));
    v.truncate(end);
    Some(from_chars(v.as_slice()))
}

/// Whether the first `end` characters of `v` end with `s`.
fn tail_is(v: &Vec<char>, end: usize, s: &Vec<char>) -> (r: bool)
    requires
        s@.len() <= end <= v@.len(),
    ensures
        r == spec_ends_with(v@.take(end as int), s@),
{
    let off = end - s.len();
    let mut i: usize = 0;
    while i < s.len()
        invariant
            off + s@.len() == end,
            end <= v@.len(),
            i <= s@.len(),
            forall|j: int| 0 <= j < i ==> v@[off + j] == s@[j],
        decreases s@.len() - i,
    {
        if v[off + i] != s[i] {
            assert(v@.take(end as int).skip(off as int)[i as int] != s@[i as int]);
            return false;
        }
        i = i + 1;
    }
    assert(v@.take(end as int).skip(off as int) =~= s@);
    true
}

} // verus!
