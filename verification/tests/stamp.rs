//! Tests of timestamp formatting and build-user resolution.

use template_rs::stamp::{
    build_date, env_identity, fallback_identity, format_timestamp, resolve_user, DateParts,
};
use template_rs::text::trim_spaces;

fn parts(year: i32, month: u32, day: u32, hour: u32, minute: u32, second: u32) -> DateParts {
    DateParts { year, month, day, hour, minute, second }
}

#[test]
fn timestamp_has_fixed_format() {
    let p = parts(2026, 10, 9, 15, 49, 3);
    assert_eq!(format_timestamp(&p), "2026-10-09 15:49:03 UTC");
}

#[test]
fn timestamp_zero_pads_every_field() {
    let p = parts(5, 1, 2, 3, 4, 5);
    assert_eq!(format_timestamp(&p), "0005-01-02 03:04:05 UTC");
}

#[test]
fn timestamp_keeps_a_sign_for_out_of_range_years() {
    let early = parts(-5, 1, 2, 3, 4, 5);
    assert_eq!(format_timestamp(&early), "-0005-01-02 03:04:05 UTC");
    let late = parts(12345, 12, 31, 23, 59, 59);
    assert_eq!(format_timestamp(&late), "+12345-12-31 23:59:59 UTC");
}

#[test]
fn build_date_is_a_utc_timestamp() {
    let stamp = build_date();
    assert!(stamp.ends_with(" UTC"));
    assert_eq!(stamp.len(), "2026-10-09 15:49:03 UTC".len());
}

#[test]
fn query_output_is_trimmed() {
    let user = resolve_user(&None, &None, &Some(String::from("alice\n")));
    assert_eq!(user, "alice");
}

#[test]
fn absent_sources_yield_the_sentinel() {
    assert_eq!(resolve_user(&None, &None, &None), "unknown");
    assert_eq!(resolve_user(&Some(String::new()), &Some(String::new()), &None), "unknown");
    assert_eq!(resolve_user(&None, &None, &Some(String::from(" \t\n"))), "unknown");
}

#[test]
fn environment_sources_win_in_priority_order() {
    let user = resolve_user(
        &Some(String::from("alice")),
        &Some(String::from("bob")),
        &Some(String::from("carol")),
    );
    assert_eq!(user, "alice");
    let user = resolve_user(&Some(String::new()), &Some(String::from("bob")), &None);
    assert_eq!(user, "bob");
}

#[test]
fn resolved_user_is_never_empty() {
    let sources: [Option<String>; 3] =
        [None, Some(String::new()), Some(String::from(" x "))];
    for primary in &sources {
        for secondary in &sources {
            for query in &sources {
                assert!(!resolve_user(primary, secondary, query).is_empty());
            }
        }
    }
}

#[test]
fn env_identity_skips_empty_values() {
    assert_eq!(env_identity(&Some(String::from("a")), &None), Some(String::from("a")));
    assert_eq!(env_identity(&Some(String::new()), &Some(String::from("b"))), Some(String::from("b")));
    assert_eq!(env_identity(&None, &None), None);
}

#[test]
fn fallback_identity_handles_blank_output() {
    assert_eq!(fallback_identity(&Some(String::from("alice\n"))), "alice");
    assert_eq!(fallback_identity(&Some(String::from("\n"))), "unknown");
    assert_eq!(fallback_identity(&None), "unknown");
}

#[test]
fn trimming_removes_only_the_edges() {
    assert_eq!(trim_spaces(" a b \n"), "a b");
    assert_eq!(trim_spaces("\t\r\n "), "");
    assert_eq!(trim_spaces("x"), "x");
    assert_eq!(trim_spaces(""), "");
}

#[test]
fn trimming_covers_unicode_whitespace() {
    assert_eq!(trim_spaces("\u{A0}alice\u{3000}"), "alice");
    assert_eq!(trim_spaces("\u{2003}\u{2028}"), "");
    assert_eq!(trim_spaces("\u{85}bob"), "bob");
    // Matches what the standard trim would do on the same input.
    let raw = "\u{1680} carol \u{205F}";
    assert_eq!(trim_spaces(raw), raw.trim());
}
