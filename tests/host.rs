use cc_browse::item::{ItemType, MetaInfo};
use cc_browse::os_generic::{
    config_dir, fmt_canonical_path, fmt_path_save, get_meta_info, make_item, ticks_to_secs,
    unix_to_secs, FileKind, RawMeta,
};

#[test]
fn windows_ticks_to_unix_seconds() {
    // 2015-05-15 00:00:00 UTC as a Windows file time
    let ticks: u64 = (1431648000 + 11_644_473_600) * 10_000_000 + 9_999_999;
    assert_eq!(ticks_to_secs(ticks, 0), 1431648000);
    assert_eq!(ticks_to_secs(ticks, 7200), 1431655200);
    assert_eq!(ticks_to_secs(0, 0), 0);
}

#[test]
fn unix_seconds_shifted() {
    assert_eq!(unix_to_secs(1000, -600), 400);
    assert_eq!(unix_to_secs(-5, 0), 0);
    assert_eq!(unix_to_secs(i64::MAX, 86_399), i64::MAX as u64 + 86_399);
}

#[test]
fn meta_normalization_keeps_order() {
    let raw = RawMeta::Unix { created: 100, accessed: 300, written: 200, size: 42, mode: 0o644 };
    let m = get_meta_info(&raw, 3600);
    assert_eq!((m.created, m.last_accessed, m.last_written, m.size, m.readonly), (3700, 3900, 3800, 42, false));
    assert!(m.created <= m.last_written);
    let raw = RawMeta::Unix { created: 1, accessed: 1, written: 1, size: 0, mode: 0o444 };
    assert!(get_meta_info(&raw, 0).readonly);
    let base: u64 = 11_644_473_600 * 10_000_000;
    let raw = RawMeta::Windows { created: base, accessed: base + 30_000_000, written: base + 10_000_000, size: 7, readonly: true };
    let m = get_meta_info(&raw, 0);
    assert_eq!((m.created, m.last_accessed, m.last_written, m.size, m.readonly), (0, 3, 1, 7, true));
}

#[test]
fn items_from_kinds() {
    let m = MetaInfo { created: 1, last_accessed: 2, last_written: 3, size: 99, readonly: true };
    let it = make_item("f".to_string(), FileKind::File, m).unwrap();
    assert!(matches!(it.ty, ItemType::File(99)));
    assert_eq!((it.created, it.last_accessed, it.last_written, it.readonly), (1, 2, 3, true));
    assert!(matches!(make_item("d".to_string(), FileKind::Dir, m).unwrap().ty, ItemType::Dir));
    match make_item("l".to_string(), FileKind::Symlink("/t".to_string()), m).unwrap().ty {
        ItemType::Link(t) => assert_eq!(t, "/t"),
        _ => panic!("expected a link"),
    }
    assert!(make_item("s".to_string(), FileKind::Other, m).is_none());
}

#[test]
fn canonical_path_text() {
    assert_eq!(fmt_canonical_path("\\\\?\\C:\\Users\\me"), "C:/Users/me");
    assert_eq!(fmt_canonical_path("/home/me"), "/home/me");
    assert_eq!(fmt_path_save("\\\\?\\C:\\Users\\me"), "C:\\Users\\me");
    assert_eq!(fmt_path_save("/home/me"), "/home/me");
}

#[test]
fn config_folder() {
    assert_eq!(config_dir(None), "/etc/cc");
    assert_eq!(config_dir(Some("C:/AppData".to_string())), "C:/AppData/cc");
}
