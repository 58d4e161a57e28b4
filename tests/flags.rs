use ext4_shim::adapter::{mkdir_open_request, open_request, root_request, touch_request};
use ext4_shim::flags::{
    create_requested, open_mode, translate_open_flags, OpenMode, O_APPEND, O_CREAT, O_RDONLY,
    O_RDWR, O_TRUNC, O_WRONLY,
};

#[test]
fn six_recognised_flag_sets() {
    assert_eq!(translate_open_flags(O_RDONLY), Some((OpenMode::Read, false)));
    assert_eq!(translate_open_flags(O_WRONLY | O_CREAT | O_TRUNC), Some((OpenMode::Write, true)));
    assert_eq!(translate_open_flags(O_WRONLY | O_CREAT | O_APPEND), Some((OpenMode::Append, true)));
    assert_eq!(translate_open_flags(O_RDWR), Some((OpenMode::ReadWrite, false)));
    assert_eq!(
        translate_open_flags(O_RDWR | O_CREAT | O_TRUNC),
        Some((OpenMode::ReadWriteTruncate, true))
    );
    assert_eq!(
        translate_open_flags(O_RDWR | O_CREAT | O_APPEND),
        Some((OpenMode::ReadWriteAppend, true))
    );
}

#[test]
fn flag_values_follow_linux() {
    assert_eq!(O_WRONLY | O_CREAT | O_TRUNC, 0o1101);
    assert_eq!(O_RDWR | O_CREAT | O_APPEND, 0o2102);
}

#[test]
fn other_flag_sets_are_rejected() {
    assert_eq!(open_mode(O_WRONLY), None);
    assert_eq!(open_mode(O_WRONLY | O_CREAT), None);
    assert_eq!(open_mode(O_RDWR | O_CREAT), None);
    assert_eq!(open_mode(O_RDONLY | O_CREAT), None);
    assert_eq!(open_mode(O_RDWR | O_TRUNC), None);
    assert_eq!(translate_open_flags(O_RDWR | O_CREAT | O_TRUNC | O_APPEND), None);
    assert!(open_request(3).is_none());
}

#[test]
fn create_bit_is_read_independently() {
    assert!(create_requested(O_CREAT));
    assert!(create_requested(O_RDWR | O_CREAT));
    assert!(!create_requested(O_RDWR | O_TRUNC));
}

#[test]
fn mode_descriptors() {
    assert_eq!(OpenMode::Read.descriptor(), "r");
    assert_eq!(OpenMode::Write.descriptor(), "w");
    assert_eq!(OpenMode::Append.descriptor(), "a");
    assert_eq!(OpenMode::ReadWrite.descriptor(), "r+");
    assert_eq!(OpenMode::ReadWriteTruncate.descriptor(), "w+");
    assert_eq!(OpenMode::ReadWriteAppend.descriptor(), "a+");
}

#[test]
fn requests_of_the_adapter() {
    let q = open_request(O_WRONLY | O_CREAT | O_APPEND).unwrap();
    assert_eq!((q.mode, q.create), ("a", true));
    let q = open_request(O_RDWR).unwrap();
    assert_eq!((q.mode, q.create), ("r+", false));
    let t = touch_request();
    assert_eq!((t.mode, t.create), ("w+", true));
    let r = root_request();
    assert_eq!((r.mode, r.create), ("r", false));
    let m = mkdir_open_request();
    assert_eq!((m.mode, m.create), ("w", false));
}
