use arena::bracket::game_url;
use arena::ids::{is_id, Id};
use arena::text::{
    chars_of, count_text, decimal_text, decimal_two_text, drop_trailing, parse_i32, same_text,
    starts_with_text, trim_text,
};
use arena::time::{
    ago_text, date_text, fmt_ago, fmt_ago_at, minute_text, plus_seconds, relative_text, Timestamp,
    FIRST_SECOND, LAST_SECOND,
};

fn at(secs: i64, nanos: u32) -> Timestamp {
    Timestamp { secs, nanos }
}

#[test]
fn numbers_are_written_like_the_standard_formatter_writes_them() {
    for n in [0, 1, 9, 10, 11, 99, 100, 12345, i64::MAX, -1, -9, -10, -99, -100, i64::MIN] {
        assert_eq!(decimal_text(n), n.to_string());
        assert_eq!(decimal_two_text(n), format!("{n:02}"));
    }
    for n in [0usize, 7, 10, 4096, usize::MAX] {
        assert_eq!(count_text(n), n.to_string());
    }
}

#[test]
fn numbers_are_read_like_the_standard_parser_reads_them() {
    for s in [
        "", "+", "-", "0", "-0", "+0", "007", "12", "-12", "+12", " 12", "12 ", "1_2", "٣",
        "2147483647", "2147483648", "-2147483648", "-2147483649", "99999999999999999999", "--1",
    ] {
        assert_eq!(parse_i32(s), s.parse::<i32>().ok());
    }
}

#[test]
fn text_is_trimmed_like_the_standard_library_trims_it() {
    for s in [
        "", " ", "  a b  ", "\u{a0}x\u{3000}", "\t\n\u{b}\u{c}\r", "\u{85}y\u{2028}", "\u{200b}z",
        "\u{feff}w", "\u{1680}\u{2000}v\u{200a}\u{202f}\u{205f}",
    ] {
        assert_eq!(trim_text(s), s.trim());
    }
}

#[test]
fn text_is_compared_and_cut() {
    assert!(same_text("snäke", "snäke"));
    assert!(!same_text("snake", "Snake"));
    assert_eq!(chars_of("aé🐍"), vec!['a', 'é', '🐍']);
    assert_eq!(drop_trailing("https://x//", '/'), "https://x");
    assert_eq!(drop_trailing("////", '/'), "");
    assert_eq!(drop_trailing("/a", '/'), "/a");
    assert!(starts_with_text("/snakes/1", "/snakes/"));
    assert!(!starts_with_text("/snake", "/snakes"));
    assert!(starts_with_text("é", ""));
}

#[test]
fn identifiers_are_written_with_hyphens() {
    let bits: u128 = 0x0123_4567_89ab_cdef_0011_2233_4455_6677;
    assert_eq!(
        game_url(Id::from_u128(bits)),
        "/games/01234567-89ab-cdef-0011-223344556677"
    );
    for bits in [0, 1, u128::MAX, 0xf000_0000_0000_0000_0000_0000_0000_0000] {
        assert_eq!(
            game_url(Id::from_u128(bits)),
            format!("/games/{}", uuid::Uuid::from_u128(bits))
        );
    }
    assert!(is_id(Some(Id::from_u128(3)), Id::from_u128(3)));
    assert!(!is_id(Some(Id::from_u128(3)), Id::from_u128(4)));
    assert!(!is_id(None, Id::from_u128(4)));
}

#[test]
fn times_are_shown_as_dates_and_to_the_minute() {
    assert_eq!(date_text(at(0, 0)), "Jan 1, 1970");
    assert_eq!(minute_text(at(0, 0)), "1970-01-01 00:00");
    assert_eq!(date_text(at(1_700_000_000, 999_999_999)), "Nov 14, 2023");
    assert_eq!(minute_text(at(1_700_000_000, 0)), "2023-11-14 22:13");
    assert!(at(FIRST_SECOND, 0).is_valid());
    assert!(at(LAST_SECOND, 999_999_999).is_valid());
    assert!(!at(LAST_SECOND + 1, 0).is_valid());
    assert!(!at(FIRST_SECOND - 1, 0).is_valid());
    assert!(!at(0, 1_000_000_000).is_valid());
    assert_eq!(
        chrono::DateTime::from_timestamp(FIRST_SECOND, 0),
        Some(chrono::DateTime::<chrono::Utc>::MIN_UTC)
    );
    assert!(chrono::DateTime::from_timestamp(LAST_SECOND, 999_999_999).is_some());
    assert!(chrono::DateTime::from_timestamp(LAST_SECOND + 1, 0).is_none());
    let _ = date_text(at(FIRST_SECOND, 0));
    let _ = minute_text(at(LAST_SECOND, 999_999_999));
}

#[test]
fn ages_are_compact() {
    assert_eq!(ago_text(-5), "0s ago");
    assert_eq!(ago_text(0), "0s ago");
    assert_eq!(ago_text(59), "59s ago");
    assert_eq!(ago_text(60), "1m ago");
    assert_eq!(ago_text(3599), "59m ago");
    assert_eq!(ago_text(3600), "1h ago");
    assert_eq!(ago_text(86399), "23h ago");
    assert_eq!(ago_text(86400), "1d ago");
    assert_eq!(ago_text(10 * 86400 + 5), "10d ago");
}

#[test]
fn ages_count_whole_seconds() {
    assert_eq!(fmt_ago_at(at(100, 0), at(102, 0)), "2s ago");
    assert_eq!(fmt_ago_at(at(100, 500_000_000), at(102, 0)), "1s ago");
    assert_eq!(fmt_ago_at(at(102, 0), at(100, 500_000_000)), "0s ago");
    assert_eq!(fmt_ago_at(at(0, 0), at(7200, 0)), "2h ago");
}

#[test]
fn ages_are_taken_from_the_clock() {
    let now = chrono::Utc::now();
    let long_ago = at(now.timestamp() - 3 * 86400 - 60, 0);
    assert_eq!(fmt_ago(long_ago), "3d ago");
    let ahead = at(now.timestamp() + 86400, 0);
    assert_eq!(fmt_ago(ahead), "0s ago");
    // No clock stands before 1970.
    let ancient = Timestamp { secs: -9 * 86400, nanos: 0 };
    let text = fmt_ago(ancient);
    let days: i64 = text.strip_suffix("d ago").unwrap().parse().unwrap();
    assert!(days >= 9);
}

#[test]
fn relative_times_look_ahead_and_back() {
    assert_eq!(relative_text(at(600, 0), at(0, 0)), "in 10 minutes");
    assert_eq!(relative_text(at(0, 0), at(600, 0)), "10 minutes ago");
    assert_eq!(relative_text(at(0, 0), at(0, 0)), "now");
    assert_eq!(plus_seconds(at(10, 7), 300), at(310, 7));
}
