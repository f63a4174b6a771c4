use dirtree::errors::ScanError;
use dirtree::timestamp::{format_mtime, MAX_TIMESTAMP_SECS};

#[test]
fn epoch_renders_as_first_day_of_1970() {
    let s = format_mtime(0).unwrap();
    assert_eq!(s, "01/01/1970 00:00:00");
}

#[test]
fn billion_seconds_render_exactly() {
    let s = format_mtime(1_000_000_000).unwrap();
    assert_eq!(s, "09/09/2001 01:46:40");
}

#[test]
fn recent_instant_renders_exactly() {
    let s = format_mtime(1_700_000_000).unwrap();
    assert_eq!(s, "14/11/2023 22:13:20");
}

#[test]
fn last_renderable_second_is_end_of_year_9999() {
    assert_eq!(MAX_TIMESTAMP_SECS, 253402300799);
    let s = format_mtime(MAX_TIMESTAMP_SECS).unwrap();
    assert_eq!(s, "31/12/9999 23:59:59");
}

#[test]
fn first_second_of_year_10000_is_rejected() {
    assert!(format_mtime(MAX_TIMESTAMP_SECS + 1).is_none());
}

#[test]
fn instants_before_the_epoch_are_rejected() {
    assert!(format_mtime(-1).is_none());
    assert!(format_mtime(i64::MIN).is_none());
}

#[test]
fn rendered_text_has_the_fixed_shape() {
    for secs in [0i64, 59, 3600, 86400, 1_234_567_890, 253402300799] {
        let s = format_mtime(secs).unwrap();
        let b: Vec<char> = s.chars().collect();
        assert_eq!(b.len(), 19);
        for (i, c) in b.iter().enumerate() {
            match i {
                2 | 5 => assert_eq!(*c, '/'),
                10 => assert_eq!(*c, ' '),
                13 | 16 => assert_eq!(*c, ':'),
                _ => assert!(c.is_ascii_digit()),
            }
        }
    }
}

#[test]
fn errors_describe_their_cause_and_path() {
    let e = ScanError::ReadDirFailed(String::from("/x"));
    assert_eq!(e.describe(), "cannot list directory: /x");
    assert_eq!(e.path(), "/x");
    let e = ScanError::MetadataFailed(String::from("/y"));
    assert_eq!(e.describe(), "cannot read metadata: /y");
    assert_eq!(e.path(), "/y");
    let e = ScanError::NameDecodeFailed(String::from("/z"));
    assert_eq!(e.describe(), "cannot decode entry name: /z");
    assert_eq!(e.path(), "/z");
    let e = ScanError::TimestampOutOfRange(String::from("/t"));
    assert_eq!(e.describe(), "modification time out of range: /t");
    assert_eq!(e.path(), "/t");
    let e = ScanError::SizeNotRepresentable(String::from("/s"));
    assert_eq!(e.describe(), "size not representable: /s");
    assert_eq!(e.path(), "/s");
}
