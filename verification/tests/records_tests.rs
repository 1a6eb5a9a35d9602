use activity_report::records::{Date, GitMemory, MemoryType, format_date, format_usize};

#[test]
fn date_formats_zero_padded() {
    let d = Date { year: 2023, month: 8, day: 7 };
    assert_eq!(format_date(&d), "2023-08-07");
    let early = Date { year: 476, month: 12, day: 31 };
    assert_eq!(format_date(&early), "0476-12-31");
}

#[test]
fn date_ordering_is_calendar_ordering() {
    let a = Date { year: 2023, month: 8, day: 7 };
    let b = Date { year: 2023, month: 8, day: 6 };
    let c = Date { year: 2022, month: 12, day: 31 };
    assert!(a.is_after(&b));
    assert!(b.is_after(&c));
    assert!(!c.is_after(&a));
    assert!(!a.is_after(&a));
}

#[test]
fn decimal_formatting_matches_std() {
    for n in [0usize, 1, 9, 10, 99, 100, 12345, usize::MAX] {
        assert_eq!(format_usize(n), format!("{}", n));
    }
}

#[test]
fn records_write_their_summary_once() {
    let d = Date { year: 2023, month: 8, day: 7 };
    let mut gm = GitMemory::new(
        MemoryType::Commit,
        "alice".to_string(),
        "fix the parser".to_string(),
        "https://github.com/o/r/commit/abc".to_string(),
        d,
    );
    assert_eq!(gm.payload, "");
    gm.set_summary("a narrative about the fix".to_string());
    assert_eq!(gm.payload, "a narrative about the fix");
    assert_eq!(gm.name, "alice");
    assert_eq!(gm.tag_line, "fix the parser");
}

#[test]
fn memory_types_compare() {
    assert_eq!(MemoryType::Issue, MemoryType::Issue);
    assert_ne!(MemoryType::Issue, MemoryType::Commit);
}
