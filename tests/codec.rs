use file_lock::{AccessMode, LockKind, ParseError};

#[test]
fn kind_text_forms() {
    assert_eq!(LockKind::NonBlocking.as_str(), "nowait");
    assert_eq!(LockKind::Blocking.as_str(), "wait");
    let r: &str = LockKind::Blocking.as_ref();
    assert_eq!(r, "wait");
}

#[test]
fn mode_text_forms() {
    assert_eq!(AccessMode::Read.as_str(), "read");
    assert_eq!(AccessMode::Write.as_str(), "write");
    let r: &str = AccessMode::Write.as_ref();
    assert_eq!(r, "write");
}

#[test]
fn kind_round_trip() {
    for kind in &[LockKind::NonBlocking, LockKind::Blocking] {
        assert_eq!(LockKind::from_str(kind.as_str()), Ok(*kind));
        assert_eq!(kind.as_str().parse::<LockKind>(), Ok(*kind));
    }
}

#[test]
fn mode_round_trip() {
    for mode in &[AccessMode::Read, AccessMode::Write] {
        assert_eq!(AccessMode::from_str(mode.as_str()), Ok(*mode));
        assert_eq!(mode.as_str().parse::<AccessMode>(), Ok(*mode));
    }
}

#[test]
fn unknown_kind_is_rejected_with_its_text() {
    let e = LockKind::from_str("block").unwrap_err();
    assert_eq!(e, ParseError(String::from("Unknown LockKind: block")));
    assert_eq!(e.message(), "Unknown LockKind: block");
    // The modes are not kinds, and case matters.
    assert!(LockKind::from_str("read").is_err());
    assert!(LockKind::from_str("WAIT").is_err());
    assert!(LockKind::from_str("wait ").is_err());
    assert_eq!(LockKind::from_str("").unwrap_err().message(), "Unknown LockKind: ");
}

#[test]
fn unknown_mode_is_rejected_with_its_text() {
    let e = "rw".parse::<AccessMode>().unwrap_err();
    assert_eq!(e.message(), "Unknown AccessMode: rw");
    assert!(AccessMode::from_str("wait").is_err());
    assert!(AccessMode::from_str("Write").is_err());
    assert_eq!(AccessMode::from_str("").unwrap_err().message(), "Unknown AccessMode: ");
}

#[test]
fn native_flags() {
    assert!(LockKind::Blocking.is_blocking());
    assert!(!LockKind::NonBlocking.is_blocking());
    assert!(AccessMode::Write.is_exclusive());
    assert!(!AccessMode::Read.is_exclusive());
    assert!(AccessMode::Read.is_read());
    assert!(!AccessMode::Write.is_read());
}
