use std::io::{Error as IoError, ErrorKind};
use grabit::error::{io_error_class, io_error_for, DBError, GbError, GbErrorKind, HandError, IOError, IOResultExt, IoErrorClass, LedgerError};
use grabit::output::{GbOutputKind, GbOutputT};
use grabit::reference::{NewRef, Ref, RefT, Timestamp};
use grabit::db::ref_log_message;
use grabit::output::{GbBufferedOutput, GbOutput, GbSingleOutput};

#[test]
fn decimal_text_of_ids() {
    assert_eq!(ref_log_message("n", 0), "n - Reference ID: 0");
    assert_eq!(ref_log_message("n", -42), "n - Reference ID: -42");
    assert_eq!(ref_log_message("n", i64::MIN), format!("n - Reference ID: {}", i64::MIN));
    assert_eq!(ref_log_message("n", i64::MAX), format!("n - Reference ID: {}", i64::MAX));
    assert_eq!(ref_log_message("n", 1234567890), "n - Reference ID: 1234567890");
}

#[test]
fn decimal_text_of_counts() {
    let mut b = GbBufferedOutput::new();
    for _ in 0..100 {
        b.add(GbOutput::Single(GbSingleOutput::new(GbOutputKind::Info, "")));
    }
    assert_eq!(b.message(), "GbBufferedOutput(100 elements)");
}

fn io_kind_of(r: Result<(), GbError>) -> IOError {
    match r {
        Err(e) => match e.into_kind() {
            GbErrorKind::IOError(x) => x,
            _ => panic!("not an I/O error"),
        },
        Ok(()) => panic!("expected an error"),
    }
}

#[test]
fn with_path_keeps_success() {
    let r: Result<u32, IoError> = Ok(5);
    assert_eq!(r.with_path("/x").unwrap(), 5);
}

#[test]
fn with_path_classifies_kinds() {
    let cases = [
        (ErrorKind::NotFound, "No file found in '/p'"),
        (ErrorKind::AlreadyExists, "File '/p' already exists"),
        (ErrorKind::PermissionDenied, "Permission denied for path: '/p'"),
        (ErrorKind::IsADirectory, "The path '/p' does not point to a file"),
        (ErrorKind::InvalidInput, "Invalid input: '/p'"),
    ];
    for (kind, msg) in cases {
        let r: Result<(), IoError> = Err(IoError::new(kind, "boom"));
        let x = io_kind_of(r.with_path("/p"));
        assert_eq!(x.message(), msg);
    }
    let r: Result<(), IoError> = Err(IoError::new(ErrorKind::Other, "boom"));
    let x = io_kind_of(r.with_path("/p"));
    assert!(matches!(x, IOError::RawIOError { ref path, .. } if path == "/p"));
    assert_eq!(x.message(), "IO Error at '/p': boom");
}

#[test]
fn io_error_for_each_class() {
    let e = || IoError::new(ErrorKind::Other, "c");
    assert!(matches!(io_error_for(IoErrorClass::NotFound, "a", e()), IOError::FileNotFound(p) if p == "a"));
    assert!(matches!(io_error_for(IoErrorClass::AlreadyExists, "a", e()), IOError::FileAlreadyExists(p) if p == "a"));
    assert!(matches!(io_error_for(IoErrorClass::PermissionDenied, "a", e()), IOError::PermissionDenied(p) if p == "a"));
    assert!(matches!(io_error_for(IoErrorClass::IsADirectory, "a", e()), IOError::IsNotFile(p) if p == "a"));
    assert!(matches!(io_error_for(IoErrorClass::InvalidInput, "a", e()), IOError::InvalidInput(p) if p == "a"));
    assert!(matches!(io_error_for(IoErrorClass::Other, "a", e()), IOError::RawIOError { path, .. } if path == "a"));
}

#[test]
fn ledger_messages() {
    assert_eq!(LedgerError::LedgerCorrupted("bad json".into()).message(), "Ledger file is corrupted and could not be parsed. Details: bad json");
    assert_eq!(LedgerError::LedgerPermissionDenied("/l".into()).message(), "Permission denied for ledger file at '/l'");
    assert_eq!(
        LedgerError::LedgerReadError { path: "/l".into(), source: IoError::new(ErrorKind::Other, "eof") }.message(),
        "Failed to read ledger file at '/l': eof"
    );
    assert_eq!(
        LedgerError::LedgerWriteError { path: "/l".into(), source: IoError::new(ErrorKind::Other, "full") }.message(),
        "Failed to write ledger file at '/l': full"
    );
    assert_eq!(LedgerError::LedgerInvalidState("x".into()).message(), "Ledger state is inconsistent: x");
    assert_eq!(LedgerError::LedgerLockedError.message(), "Ledger is locked!");
}

#[test]
fn hand_messages() {
    assert_eq!(HandError::HandNotFound("w".into()).message(), "Hand 'w' not found.");
    assert_eq!(HandError::HandAlreadyExists("w".into()).message(), "Hand 'w' already exists.");
    assert_eq!(HandError::PocketNotFound("w".into()).message(), "Pocket dir not found in hand 'w'.");
    assert_eq!(HandError::PocketCopyFailed("/f".into()).message(), "File could not be copied to pocket vault: '/f'");
}

#[test]
fn db_messages() {
    assert_eq!(DBError::DBConnectionFailed("x".into()).message(), "Database connection failed: 'x'");
    assert_eq!(DBError::DBQueryFailed("x".into()).message(), "Database query failed: 'x'");
    assert_eq!(DBError::DBCorrupted("x".into()).message(), "Database corruption detected! Risk of data loss. Details: 'x'");
    assert_eq!(DBError::RecordNotFound("x".into()).message(), "Record not found: x");
    assert_eq!(DBError::GeneralDatabaseError("x".into()).message(), "General database error: x");
    let e = sqlx::Error::RowNotFound;
    let text = e.to_string();
    assert_eq!(DBError::SqlxError(e).message(), text);
}

#[test]
fn error_kind_messages_are_transparent() {
    assert_eq!(GbErrorKind::General("oops".into()).message(), "`grabit` General error: oops");
    assert_eq!(GbErrorKind::HandError(HandError::HandNotFound("w".into())).message(), "Hand 'w' not found.");
    assert_eq!(GbErrorKind::IOError(IOError::FileNotFound("/q".into())).message(), "No file found in '/q'");
}

#[test]
fn error_output_is_error_kind() {
    let e: GbError = HandError::HandAlreadyExists("w".into()).into();
    let o = e.to_output();
    assert_eq!(o.kind(), Some(GbOutputKind::Error));
    assert_eq!(o.message(), "Hand 'w' already exists.");
}

#[test]
fn conversions_into_gb_error() {
    let e: GbError = IOError::InvalidInput("i".into()).into();
    assert!(matches!(e.into_kind(), GbErrorKind::IOError(IOError::InvalidInput(_))));
    let e: GbError = LedgerError::LedgerLockedError.into();
    assert!(matches!(e.into_kind(), GbErrorKind::LedgerError(LedgerError::LedgerLockedError)));
    let e: GbError = DBError::RecordNotFound("r".into()).into();
    assert!(matches!(e.into_kind(), GbErrorKind::DBError(DBError::RecordNotFound(_))));
    let e: GbError = sqlx::Error::RowNotFound.into();
    assert!(matches!(e.into_kind(), GbErrorKind::DBError(DBError::SqlxError(sqlx::Error::RowNotFound))));
    let e = GbError::new(GbErrorKind::General("g".into()));
    assert!(matches!(e.into_kind(), GbErrorKind::General(_)));
}

#[test]
fn ref_type_text_roundtrip() {
    assert_eq!(RefT::System.as_text(), "system");
    assert_eq!(RefT::Pocket.as_text(), "pocket");
    assert_eq!(RefT::from_text("system"), Some(RefT::System));
    assert_eq!(RefT::from_text("pocket"), Some(RefT::Pocket));
    assert_eq!(RefT::from_text("Pocket"), None);
}

#[test]
fn new_ref_keeps_fields() {
    let r = NewRef::new(RefT::Pocket, "/a/b".to_string());
    assert_eq!(r.rt, RefT::Pocket);
    assert_eq!(r.path, "/a/b");
}

#[test]
fn ref_getters_and_names() {
    let t = Timestamp { secs: 10, nanos: 0 };
    let r = Ref::from_parts(3, RefT::System, "/home/u/notes.backup.txt".to_string(), t);
    assert_eq!(r.id(), 3);
    assert_eq!(r.rt(), RefT::System);
    assert_eq!(r.path(), "/home/u/notes.backup.txt");
    assert_eq!(r.created(), t);
    assert_eq!(r.name(), Some("notes.backup.txt"));
    assert_eq!(r.stem(), Some("notes.backup"));
    assert_eq!(r.extn(), Some("txt"));
    let d = Ref::from_parts(4, RefT::System, "/".to_string(), t);
    assert_eq!(d.name(), None);
    assert_eq!(d.stem(), None);
    assert_eq!(d.extn(), None);
}

#[test]
fn io_error_class_per_kind() {
    assert_eq!(io_error_class(ErrorKind::NotFound), IoErrorClass::NotFound);
    assert_eq!(io_error_class(ErrorKind::AlreadyExists), IoErrorClass::AlreadyExists);
    assert_eq!(io_error_class(ErrorKind::PermissionDenied), IoErrorClass::PermissionDenied);
    assert_eq!(io_error_class(ErrorKind::IsADirectory), IoErrorClass::IsADirectory);
    assert_eq!(io_error_class(ErrorKind::InvalidInput), IoErrorClass::InvalidInput);
    assert_eq!(io_error_class(ErrorKind::TimedOut), IoErrorClass::Other);
    assert_eq!(io_error_class(ErrorKind::Other), IoErrorClass::Other);
}
