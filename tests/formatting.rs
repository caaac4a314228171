use cc_browse::clock::{date_of_secs, fmt_date_time, fmt_est_time_passed, fmt_short_date, local_offset_at, local_offset_now, to_local_time};
use cc_browse::fmt::truncate_str;
use cc_browse::item::{Item, ItemType};

#[test]
fn truncation_at_the_column_width() {
    let w = 10;
    assert_eq!(truncate_str("abcdefgh", w), "abcdefgh");
    assert_eq!(truncate_str("abcdefghi", w), "abcdef...");
    assert_eq!(truncate_str("abcdefghij", w), "abcdefg...");
    assert_eq!(truncate_str("abcdefghijk", w), "abcdefg...");
    assert_eq!(truncate_str("short", w), "short");
    assert_eq!(truncate_str("", w), "");
    assert_eq!(truncate_str("ab", 5), "ab");
    assert_eq!(truncate_str("abcdefgh", 5), "ab...");
    assert_eq!(truncate_str("a", 3), "a");
    assert_eq!(truncate_str("", 3), "");
    assert_eq!(truncate_str("ab", 3), "...");
    assert_eq!(truncate_str("abcdef", 3), "...");
    assert_eq!(truncate_str("äöüäöüäöüäöü", 5), "äö...");
}

#[test]
fn elapsed_seconds_minutes_hours() {
    assert_eq!(fmt_est_time_passed(100, 100), "     0s ago");
    assert_eq!(fmt_est_time_passed(100, 159), "    59s ago");
    assert_eq!(fmt_est_time_passed(0, 61), " 1m  1s ago");
    assert_eq!(fmt_est_time_passed(0, 3 * 3600 + 25 * 60 + 7), " 3h 25m ago");
    assert_eq!(fmt_est_time_passed(0, 2 * 86400 + 5 * 3600), " 2d  5h ago");
    assert_eq!(fmt_est_time_passed(0, 3 * 604800 + 2 * 86400), " 3w  2d ago");
}

#[test]
fn elapsed_in_the_future_is_zero() {
    assert_eq!(fmt_est_time_passed(500, 100), "     0s ago");
}

#[test]
fn elapsed_four_weeks_shows_date() {
    // 2015-05-15 00:00:00 UTC
    let then = 1431648000;
    assert_eq!(fmt_est_time_passed(then, then + 4 * 604800), "   15.05.15");
}

#[test]
fn date_of_known_timestamps() {
    assert_eq!(date_of_secs(0), Some((1970, 1, 1)));
    assert_eq!(date_of_secs(1431648000), Some((2015, 5, 15)));
    assert_eq!(date_of_secs(u64::MAX), None);
}

#[test]
fn long_and_short_date_text() {
    let secs = 1431648000 + 13 * 3600 + 4 * 60 + 5;
    assert_eq!(fmt_date_time(date_of_secs(secs), secs), "15.05.2015 13:04:05");
    assert_eq!(fmt_date_time(None, 0), "??.??.???? ??:??:??");
    assert_eq!(fmt_date_time(Some((12345, 1, 2)), 3661), "02.01.+12345 01:01:01");
    assert_eq!(fmt_date_time(Some((987, 1, 2)), 0), "02.01.0987 00:00:00");
    assert_eq!(fmt_date_time(Some((-44, 3, 15)), 0), "15.03.-0044 00:00:00");
    assert_eq!(fmt_short_date(Some((2009, 12, 3))), "   03.12.09");
    assert_eq!(fmt_short_date(None), "   ??.??.??");
}

#[test]
fn local_offset_within_a_day() {
    let o = local_offset_at(1431648000);
    assert!(-86_400 < o && o < 86_400);
    let n = local_offset_now();
    assert!(-86_400 < n && n < 86_400);
}

#[test]
fn local_time_shift() {
    assert_eq!(to_local_time(1000, 3600), Some(4600));
    assert_eq!(to_local_time(1000, -3600), None);
}

#[test]
fn item_row_layout() {
    let now = 1431648000 + 120;
    let file = Item {
        ty: ItemType::File(1234),
        name: "notes.txt".to_string(),
        readonly: true,
        created: 1431648000,
        last_accessed: now - 30,
        last_written: now,
    };
    let row = file.render(now);
    assert_eq!(
        row,
        "| notes.txt                        |       1234 bytes  R | 15.05.2015 00:00:00 |     30s ago |      0s ago |"
    );
    let dir = Item { ty: ItemType::Dir, name: "src".to_string(), readonly: false, ..file };
    let row = dir.render(now);
    assert!(row.starts_with("| src/                             |            <dir> RW | "));
    let link = Item { ty: ItemType::Link("x".to_string()), name: "a".repeat(40), readonly: false, created: 0, last_accessed: 0, last_written: 0 };
    let row = link.render(now);
    assert!(row.starts_with(&format!("| {}... |          => ...  RW | 01.01.1970 00:00:00 |    01.01.70 | ", "a".repeat(29))));
}
