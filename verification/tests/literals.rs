use gnomon::desugar::month_day_to_year_day;
use gnomon::literals::{
    eval_atom, eval_integer, eval_name, eval_signed_integer, eval_string, eval_triple_string,
    eval_uri, parse_date_components, process_escapes, parse_duration_components, parse_time_components,
    DurationParts,
};


// ── eval_string ──────────────────────────────────────────────

#[test]
fn string_simple() {
    assert_eq!(eval_string(r#""hello""#), "hello");
}

#[test]
fn string_empty() {
    assert_eq!(eval_string(r#""""#), "");
}

#[test]
fn string_escaped_quote() {
    assert_eq!(eval_string(r#""say \"hi\"""#), r#"say "hi""#);
}

#[test]
fn string_escaped_backslash() {
    assert_eq!(eval_string(r#""a\\b""#), r"a\b");
}

#[test]
fn string_escaped_newline_and_tab() {
    assert_eq!(eval_string(r#""a\nb\tc""#), "a\nb\tc");
}

// ── eval_triple_string ─────────────────────────────────────

#[test]
fn triple_string_simple() {
    assert_eq!(eval_triple_string(r#""""hello""""#), "hello");
}

#[test]
fn triple_string_empty() {
    assert_eq!(eval_triple_string(r#""""""""#), "");
}

#[test]
fn triple_string_multiline() {
    // Content: \nhello\nworld\n
    // After dedent: first empty line stripped, last empty line stripped
    assert_eq!(
        eval_triple_string("\"\"\"\nhello\nworld\n\"\"\""),
        "hello\nworld"
    );
}

#[test]
fn triple_string_dedent_with_baseline() {
    // The closing """ is indented 4 spaces, establishing the baseline.
    let input = "\"\"\"\n    hello\n    world\n    \"\"\"";
    assert_eq!(eval_triple_string(input), "hello\nworld");
}

#[test]
fn triple_string_dedent_mixed_indent() {
    // Baseline is 4 from closing line; "world" has 8 → becomes 4.
    let input = "\"\"\"\n    hello\n        world\n    \"\"\"";
    assert_eq!(eval_triple_string(input), "hello\n    world");
}

#[test]
fn triple_string_embedded_quotes() {
    assert_eq!(
        eval_triple_string(r#""""he said "hi" ok""""#),
        r#"he said "hi" ok"#
    );
}

#[test]
fn triple_string_escapes() {
    assert_eq!(eval_triple_string(r#""""a\nb\tc""""#), "a\nb\tc");
}

#[test]
fn triple_string_no_dedent_inline() {
    // Content on same line as delimiters — no first/last line stripping.
    assert_eq!(eval_triple_string(r#""""hello world""""#), "hello world");
}

#[test]
fn triple_string_dedent_without_baseline() {
    // No trailing whitespace-only line, so min-indent is computed.
    let input = "\"\"\"\n  a\n    b\n  c\"\"\"";
    assert_eq!(eval_triple_string(input), "a\n  b\nc");
}

#[test]
fn triple_string_preserves_empty_lines() {
    let input = "\"\"\"\n    hello\n\n    world\n    \"\"\"";
    assert_eq!(eval_triple_string(input), "hello\n\nworld");
}

// ── eval_integer / eval_signed_integer ───────────────────────

#[test]
fn integer_ok() {
    assert_eq!(eval_integer("42"), Some(42));
}

#[test]
fn integer_zero() {
    assert_eq!(eval_integer("0"), Some(0));
}

#[test]
fn integer_max() {
    assert_eq!(eval_integer("18446744073709551615"), Some(u64::MAX));
}

#[test]
fn signed_integer_positive() {
    assert_eq!(eval_signed_integer("+5"), Some(5));
}

#[test]
fn signed_integer_negative() {
    assert_eq!(eval_signed_integer("-42"), Some(-42));
}

// ── eval_uri / eval_atom / eval_name ─────────────────────────

#[test]
fn uri_strips_brackets() {
    assert_eq!(eval_uri("<https://example.com>"), "https://example.com");
}

#[test]
fn atom_strips_hash() {
    assert_eq!(eval_atom("#confirmed"), "confirmed");
}

#[test]
fn name_strips_at() {
    assert_eq!(eval_name("@foo.bar"), "foo.bar");
}

#[test]
fn name_simple() {
    assert_eq!(eval_name("@meeting"), "meeting");
}

// ── parse_date_components ────────────────────────────────────

#[test]
fn date_components() {
    assert_eq!(parse_date_components("2026-03-15"), Some((2026, 3, 15)));
}

#[test]
fn date_components_leading_zeros() {
    assert_eq!(parse_date_components("2026-01-01"), Some((2026, 1, 1)));
}

// ── parse_time_components ────────────────────────────────────

#[test]
fn time_with_seconds() {
    assert_eq!(parse_time_components("14:30:59"), Some((14, 30, 59)));
}

#[test]
fn time_without_seconds() {
    assert_eq!(parse_time_components("14:30"), Some((14, 30, 0)));
}

#[test]
fn time_midnight() {
    assert_eq!(parse_time_components("00:00:00"), Some((0, 0, 0)));
}

// ── parse_duration_components ────────────────────────────────

#[test]
fn duration_simple() {
    assert_eq!(
        parse_duration_components("1h30m"),
        Some(DurationParts {
            positive: true,
            weeks: 0,
            days: 0,
            hours: 1,
            minutes: 30,
            seconds: 0,
        })
    );
}

#[test]
fn duration_positive_sign() {
    assert_eq!(
        parse_duration_components("+5h"),
        Some(DurationParts {
            positive: true,
            weeks: 0,
            days: 0,
            hours: 5,
            minutes: 0,
            seconds: 0,
        })
    );
}

#[test]
fn duration_negative() {
    assert_eq!(
        parse_duration_components("-1w3d"),
        Some(DurationParts {
            positive: false,
            weeks: 1,
            days: 3,
            hours: 0,
            minutes: 0,
            seconds: 0,
        })
    );
}

#[test]
fn duration_all_units() {
    assert_eq!(
        parse_duration_components("2w3d4h5m6s"),
        Some(DurationParts {
            positive: true,
            weeks: 2,
            days: 3,
            hours: 4,
            minutes: 5,
            seconds: 6,
        })
    );
}

#[test]
fn duration_single_seconds() {
    assert_eq!(
        parse_duration_components("30s"),
        Some(DurationParts {
            positive: true,
            weeks: 0,
            days: 0,
            hours: 0,
            minutes: 0,
            seconds: 30,
        })
    );
}

#[test]
fn month_day_to_year_day_jan_1() {
    assert_eq!(month_day_to_year_day(1, 1), Some(1));
}

#[test]
fn month_day_to_year_day_mar_15() {
    // Jan=31, Feb=28, so March 15 = 31+28+15 = 74
    assert_eq!(month_day_to_year_day(3, 15), Some(74));
}

#[test]
fn month_day_to_year_day_dec_31() {
    assert_eq!(month_day_to_year_day(12, 31), Some(365));
}

#[test]
fn month_day_to_year_day_month_zero() {
    assert_eq!(month_day_to_year_day(0, 15), None);
}

#[test]
fn month_day_to_year_day_month_13() {
    assert_eq!(month_day_to_year_day(13, 1), None);
}

#[test]
fn duration_needs_a_unit_after_every_number() {
    assert_eq!(parse_duration_components("1h30"), None);
    assert_eq!(parse_duration_components("15"), None);
    assert_eq!(parse_duration_components("-"), None);
    assert_eq!(parse_duration_components(""), None);
}

#[test]
fn triple_string_dedent_cuts_only_whitespace() {
    // Baseline 4 from the closing line; the content line has only 2 spaces.
    assert_eq!(eval_triple_string("\"\"\"\n  abc\n    \"\"\""), "abc");
    // Baseline 1 falls inside a two-byte character: nothing but spaces is cut.
    assert_eq!(eval_triple_string("\"\"\"\n\u{e9}\u{e9}\n \"\"\""), "\u{e9}\u{e9}");
    // A non-breaking space is two bytes of whitespace.
    assert_eq!(eval_triple_string("\"\"\"\n\u{a0}x\n\u{a0}y\"\"\""), "x\ny");
}

#[test]
fn process_escapes_reads_back_escaped_text() {
    let original = "a\\b\"c\nd\te";
    let escaped = "a\\\\b\\\"c\\nd\\te";
    assert_eq!(process_escapes(escaped), original);
    assert_eq!(process_escapes("\\q"), "\\q");
    assert_eq!(process_escapes("end\\"), "end\\");
}
