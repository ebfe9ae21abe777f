//! The errors of grabit, the messages that describe them, and how a failed
//! file operation becomes one.

use vstd::prelude::*;
use vstd::string::*;
use crate::output::{GbOutputKind, GbOutputT, GbSingleOutput};
use crate::text::{concat2, concat3, starts_with};

verus! {

/// `std::io::Error`, the cause of a failed file operation, carried through
/// opaquely.
#[verifier::external_type_specification]
#[verifier::external_body]
pub struct ExIoError(std::io::Error);

/// `sqlx::Error`, an error of the database driver, carried through opaquely.
#[verifier::external_type_specification]
#[verifier::external_body]
pub struct ExSqlxError(sqlx::Error);

/// The kinds of I/O failure that grabit reports each in its own way.
#[derive(Clone, Copy, Debug, PartialEq, Eq, Structural)]
pub enum IoErrorClass {
    NotFound,
    AlreadyExists,
    PermissionDenied,
    IsADirectory,
    InvalidInput,
    Other,
}

/// `std::io::ErrorKind`, the kind of an I/O failure; its variants are
/// visible, so verified code can tell them apart.
#[verifier::external_type_specification]
pub struct ExIoErrorKind(std::io::ErrorKind);

/// The kind of an I/O error, as `std::io::Error::kind` reports it.
pub uninterp spec fn io_error_kind_of(e: std::io::Error) -> std::io::ErrorKind;

/// `std::io::Error::kind`: the kind the error was made with. The kind is a
/// function of the error value alone.
#[verifier::external_body]
fn io_error_kind(e: &std::io::Error) -> (r: std::io::ErrorKind)
    ensures
        r == io_error_kind_of(*e),
{
    e.kind()
}

/// How grabit classes an I/O failure kind: the five kinds it names are
/// told apart, every other kind is `Other`.
pub open spec fn class_of_kind(kind: std::io::ErrorKind) -> IoErrorClass {
    match kind {
        std::io::ErrorKind::NotFound => IoErrorClass::NotFound,
        std::io::ErrorKind::AlreadyExists => IoErrorClass::AlreadyExists,
        std::io::ErrorKind::PermissionDenied => IoErrorClass::PermissionDenied,
        std::io::ErrorKind::IsADirectory => IoErrorClass::IsADirectory,
        std::io::ErrorKind::InvalidInput => IoErrorClass::InvalidInput,
        _ => IoErrorClass::Other,
    }
}

/// Law: each named class comes from exactly its own kind, and every other
/// kind is `Other`.
pub proof fn lemma_class_of_kind_exact(kind: std::io::ErrorKind)
    ensures
        class_of_kind(kind) == IoErrorClass::NotFound <==> kind == std::io::ErrorKind::NotFound,
        class_of_kind(kind) == IoErrorClass::AlreadyExists <==> kind
            == std::io::ErrorKind::AlreadyExists,
        class_of_kind(kind) == IoErrorClass::PermissionDenied <==> kind
            == std::io::ErrorKind::PermissionDenied,
        class_of_kind(kind) == IoErrorClass::IsADirectory <==> kind
            == std::io::ErrorKind::IsADirectory,
        class_of_kind(kind) == IoErrorClass::InvalidInput <==> kind
            == std::io::ErrorKind::InvalidInput,
        class_of_kind(kind) == IoErrorClass::Other <==> (kind != std::io::ErrorKind::NotFound
            && kind != std::io::ErrorKind::AlreadyExists && kind
            != std::io::ErrorKind::PermissionDenied && kind != std::io::ErrorKind::IsADirectory
            && kind != std::io::ErrorKind::InvalidInput),
{
}

/// The class of an I/O failure kind.
pub fn io_error_class(kind: std::io::ErrorKind) -> (r: IoErrorClass)
    ensures
        r == class_of_kind(kind),
{
    match kind {
        std::io::ErrorKind::NotFound => IoErrorClass::NotFound,
        std::io::ErrorKind::AlreadyExists => IoErrorClass::AlreadyExists,
        std::io::ErrorKind::PermissionDenied => IoErrorClass::PermissionDenied,
        std::io::ErrorKind::IsADirectory => IoErrorClass::IsADirectory,
        std::io::ErrorKind::InvalidInput => IoErrorClass::InvalidInput,
        _ => IoErrorClass::Other,
    }
}

/// The text of an I/O error, by its `Display` (`format!("{}", e)`). The
/// text comes from the operating system; nothing is claimed of it.
#[verifier::external_body]
fn io_error_text(e: &std::io::Error) -> String {
    format!("{}", e)
}

/// The text of a database error, by its `Display` (`format!("{}", e)`).
/// The error's contents are not visible to the verifier; nothing is claimed
/// of the text.
#[verifier::external_body]
fn sqlx_error_text(e: &sqlx::Error) -> String {
    format!("{}", e)
}

/// The message of an unclassified I/O failure on `path` whose cause reads `cause`.
pub fn raw_io_message(path: &str, cause: &str) -> (r: String)
    ensures
        r@ == "IO Error at '"@ + path@ + "': "@ + cause@,
{
    let mut r = concat3("IO Error at '", path, "': ");
    r.append(cause);
    r
}

/// The message of a failed read of the ledger at `path` whose cause reads `cause`.
pub fn ledger_read_message(path: &str, cause: &str) -> (r: String)
    ensures
        r@ == "Failed to read ledger file at '"@ + path@ + "': "@ + cause@,
{
    let mut r = concat3("Failed to read ledger file at '", path, "': ");
    r.append(cause);
    r
}

/// The message of a failed write of the ledger at `path` whose cause reads `cause`.
pub fn ledger_write_message(path: &str, cause: &str) -> (r: String)
    ensures
        r@ == "Failed to write ledger file at '"@ + path@ + "': "@ + cause@,
{
    let mut r = concat3("Failed to write ledger file at '", path, "': ");
    r.append(cause);
    r
}

/// A failed file operation on a path.
#[derive(Debug)]
pub enum IOError {
    IsNotFile(String),
    FileAlreadyExists(String),
    FileNotFound(String),
    InvalidInput(String),
    PermissionDenied(String),
    RawIOError { path: String, source: std::io::Error },
}

/// `x` is the error that a failure of class `class` on `path` with cause
/// `source` is reported as.
pub open spec fn io_error_for_class(
    x: IOError,
    class: IoErrorClass,
    path: Seq<char>,
    source: std::io::Error,
) -> bool {
    match class {
        IoErrorClass::NotFound => x matches IOError::FileNotFound(p) && p@ == path,
        IoErrorClass::AlreadyExists => x matches IOError::FileAlreadyExists(p) && p@ == path,
        IoErrorClass::PermissionDenied => x matches IOError::PermissionDenied(p) && p@ == path,
        IoErrorClass::IsADirectory => x matches IOError::IsNotFile(p) && p@ == path,
        IoErrorClass::InvalidInput => x matches IOError::InvalidInput(p) && p@ == path,
        IoErrorClass::Other => x matches IOError::RawIOError { path: p, source: s } && p@ == path
            && s == source,
    }
}

/// The error that a failure of class `class` on `path` is reported as.
pub fn io_error_for(class: IoErrorClass, path: &str, source: std::io::Error) -> (r: IOError)
    ensures
        io_error_for_class(r, class, path@, source),
{
    let p = path.to_owned();
    match class {
        IoErrorClass::NotFound => IOError::FileNotFound(p),
        IoErrorClass::AlreadyExists => IOError::FileAlreadyExists(p),
        IoErrorClass::PermissionDenied => IOError::PermissionDenied(p),
        IoErrorClass::IsADirectory => IOError::IsNotFile(p),
        IoErrorClass::InvalidInput => IOError::InvalidInput(p),
        IoErrorClass::Other => IOError::RawIOError { path: p, source },
    }
}

impl IOError {
    /// `m` is the message of this error: fixed words around the path, and
    /// for an unclassified failure the path followed by the cause's text.
    pub open spec fn is_message(&self, m: Seq<char>) -> bool {
        match self {
            IOError::IsNotFile(p) => m == "The path '"@ + p@ + "' does not point to a file"@,
            IOError::FileAlreadyExists(p) => m == "File '"@ + p@ + "' already exists"@,
            IOError::FileNotFound(p) => m == "No file found in '"@ + p@ + "'"@,
            IOError::InvalidInput(p) => m == "Invalid input: '"@ + p@ + "'"@,
            IOError::PermissionDenied(p) => m == "Permission denied for path: '"@ + p@ + "'"@,
            IOError::RawIOError { path, source } => starts_with(
                m,
                "IO Error at '"@ + path@ + "': "@,
            ),
        }
    }

    pub fn message(&self) -> (r: String)
        ensures
            self.is_message(r@),
    {
        match self {
            IOError::IsNotFile(p) => concat3("The path '", p.as_str(), "' does not point to a file"),
            IOError::FileAlreadyExists(p) => concat3("File '", p.as_str(), "' already exists"),
            IOError::FileNotFound(p) => concat3("No file found in '", p.as_str(), "'"),
            IOError::InvalidInput(p) => concat3("Invalid input: '", p.as_str(), "'"),
            IOError::PermissionDenied(p) => concat3(
                "Permission denied for path: '",
                p.as_str(),
                "'",
            ),
            IOError::RawIOError { path, source } => {
                let cause = io_error_text(source);
                let r = raw_io_message(path.as_str(), cause.as_str());
                assert(r@.subrange(0, ("IO Error at '"@ + path@ + "': "@).len() as int) =~= "IO Error at '"@
                    + path@ + "': "@);
                r
            },
        }
    }
}

/// A failure around the ledger file.
#[derive(Debug)]
pub enum LedgerError {
    LedgerCorrupted(String),
    LedgerPermissionDenied(String),
    LedgerReadError { path: String, source: std::io::Error },
    LedgerWriteError { path: String, source: std::io::Error },
    LedgerInvalidState(String),
    LedgerLockedError,
}

impl LedgerError {
    pub open spec fn is_message(&self, m: Seq<char>) -> bool {
        match self {
            LedgerError::LedgerCorrupted(d) => m
                == "Ledger file is corrupted and could not be parsed. Details: "@ + d@,
            LedgerError::LedgerPermissionDenied(p) => m == "Permission denied for ledger file at '"@
                + p@ + "'"@,
            LedgerError::LedgerReadError { path, source } => starts_with(
                m,
                "Failed to read ledger file at '"@ + path@ + "': "@,
            ),
            LedgerError::LedgerWriteError { path, source } => starts_with(
                m,
                "Failed to write ledger file at '"@ + path@ + "': "@,
            ),
            LedgerError::LedgerInvalidState(d) => m == "Ledger state is inconsistent: "@ + d@,
            LedgerError::LedgerLockedError => m == "Ledger is locked!"@,
        }
    }

    pub fn message(&self) -> (r: String)
        ensures
            self.is_message(r@),
    {
        match self {
            LedgerError::LedgerCorrupted(d) => concat2("Ledger file is corrupted and could not be parsed. Details: ", d.as_str()),
            LedgerError::LedgerPermissionDenied(p) => concat3(
                "Permission denied for ledger file at '",
                p.as_str(),
                "'",
            ),
            LedgerError::LedgerReadError { path, source } => {
                let cause = io_error_text(source);
                let r = ledger_read_message(path.as_str(), cause.as_str());
                assert(r@.subrange(0, ("Failed to read ledger file at '"@ + path@ + "': "@).len() as int)
                    =~= "Failed to read ledger file at '"@ + path@ + "': "@);
                r
            },
            LedgerError::LedgerWriteError { path, source } => {
                let cause = io_error_text(source);
                let r = ledger_write_message(path.as_str(), cause.as_str());
                assert(r@.subrange(0, ("Failed to write ledger file at '"@ + path@ + "': "@).len() as int)
                    =~= "Failed to write ledger file at '"@ + path@ + "': "@);
                r
            },
            LedgerError::LedgerInvalidState(d) => concat2("Ledger state is inconsistent: ", d.as_str()),
            LedgerError::LedgerLockedError => "Ledger is locked!".to_owned(),
        }
    }
}

/// A failure around a hand.
#[derive(Debug)]
pub enum HandError {
    HandNotFound(String),
    HandAlreadyExists(String),
    PocketNotFound(String),
    PocketCopyFailed(String),
}

impl HandError {
    pub open spec fn is_message(&self, m: Seq<char>) -> bool {
        match self {
            HandError::HandNotFound(h) => m == "Hand '"@ + h@ + "' not found."@,
            HandError::HandAlreadyExists(h) => m == "Hand '"@ + h@ + "' already exists."@,
            HandError::PocketNotFound(h) => m == "Pocket dir not found in hand '"@ + h@ + "'."@,
            HandError::PocketCopyFailed(p) => m == "File could not be copied to pocket vault: '"@
                + p@ + "'"@,
        }
    }

    pub fn message(&self) -> (r: String)
        ensures
            self.is_message(r@),
    {
        match self {
            HandError::HandNotFound(h) => concat3("Hand '", h.as_str(), "' not found."),
            HandError::HandAlreadyExists(h) => concat3("Hand '", h.as_str(), "' already exists."),
            HandError::PocketNotFound(h) => concat3(
                "Pocket dir not found in hand '",
                h.as_str(),
                "'.",
            ),
            HandError::PocketCopyFailed(p) => concat3(
                "File could not be copied to pocket vault: '",
                p.as_str(),
                "'",
            ),
        }
    }
}

/// A failure around a hand's database.
#[derive(Debug)]
pub enum DBError {
    DBConnectionFailed(String),
    DBQueryFailed(String),
    DBCorrupted(String),
    RecordNotFound(String),
    GeneralDatabaseError(String),
    SqlxError(sqlx::Error),
}

impl DBError {
    /// For an error of the database driver the message is the driver's
    /// own text, of which nothing is known.
    pub open spec fn is_message(&self, m: Seq<char>) -> bool {
        match self {
            DBError::DBConnectionFailed(d) => m == "Database connection failed: '"@ + d@ + "'"@,
            DBError::DBQueryFailed(d) => m == "Database query failed: '"@ + d@ + "'"@,
            DBError::DBCorrupted(d) => m == "Database corruption detected! Risk of data loss. Details: '"@
                + d@ + "'"@,
            DBError::RecordNotFound(d) => m == "Record not found: "@ + d@,
            DBError::GeneralDatabaseError(d) => m == "General database error: "@ + d@,
            DBError::SqlxError(_) => true,
        }
    }

    pub fn message(&self) -> (r: String)
        ensures
            self.is_message(r@),
    {
        match self {
            DBError::DBConnectionFailed(d) => concat3(
                "Database connection failed: '",
                d.as_str(),
                "'",
            ),
            DBError::DBQueryFailed(d) => concat3("Database query failed: '", d.as_str(), "'"),
            DBError::DBCorrupted(d) => concat3(
                "Database corruption detected! Risk of data loss. Details: '",
                d.as_str(),
                "'",
            ),
            DBError::RecordNotFound(d) => concat2("Record not found: ", d.as_str()),
            DBError::GeneralDatabaseError(d) => concat2("General database error: ", d.as_str()),
            DBError::SqlxError(e) => sqlx_error_text(e),
        }
    }
}

/// What went wrong, by area.
#[derive(Debug)]
pub enum GbErrorKind {
    IOError(IOError),
    LedgerError(LedgerError),
    HandError(HandError),
    DBError(DBError),
    General(String),
}

impl GbErrorKind {
    /// The message of an area's error is that error's own message.
    pub open spec fn is_message(&self, m: Seq<char>) -> bool {
        match self {
            GbErrorKind::IOError(e) => e.is_message(m),
            GbErrorKind::LedgerError(e) => e.is_message(m),
            GbErrorKind::HandError(e) => e.is_message(m),
            GbErrorKind::DBError(e) => e.is_message(m),
            GbErrorKind::General(d) => m == "`grabit` General error: "@ + d@,
        }
    }

    pub fn message(&self) -> (r: String)
        ensures
            self.is_message(r@),
    {
        match self {
            GbErrorKind::IOError(e) => e.message(),
            GbErrorKind::LedgerError(e) => e.message(),
            GbErrorKind::HandError(e) => e.message(),
            GbErrorKind::DBError(e) => e.message(),
            GbErrorKind::General(d) => concat2("`grabit` General error: ", d.as_str()),
        }
    }
}

/// An error of grabit.
#[derive(Debug)]
pub struct GbError {
    kind: GbErrorKind,
}

/// The result of an operation of grabit.
pub type GbResult<T> = Result<T, GbError>;

impl GbError {
    /// What went wrong.
    pub closed spec fn kind_view(&self) -> GbErrorKind {
        self.kind
    }

    pub fn new(kind: GbErrorKind) -> (r: GbError)
        ensures
            r.kind_view() == kind,
    {
        GbError { kind }
    }

    /// What went wrong, taken out of the error.
    pub fn into_kind(self) -> (r: GbErrorKind)
        ensures
            r == self.kind_view(),
    {
        self.kind
    }

    /// What printing the error shows: its message, as an error.
    pub fn to_output(&self) -> (r: GbSingleOutput)
        ensures
            r.kind_spec() == Some(GbOutputKind::Error),
            self.kind_view().is_message(r.message_spec()),
    {
        let m = self.kind.message();
        GbSingleOutput::new(GbOutputKind::Error, m.as_str())
    }
}

impl From<IOError> for GbError {
    fn from(e: IOError) -> (r: GbError)
        ensures
            r.kind_view() == GbErrorKind::IOError(e),
    {
        GbError::new(GbErrorKind::IOError(e))
    }
}

impl vstd::std_specs::convert::FromSpecImpl<IOError> for GbError {
    open spec fn obeys_from_spec() -> bool {
        true
    }

    closed spec fn from_spec(v: IOError) -> GbError {
        GbError { kind: GbErrorKind::IOError(v) }
    }
}

impl From<LedgerError> for GbError {
    fn from(e: LedgerError) -> (r: GbError)
        ensures
            r.kind_view() == GbErrorKind::LedgerError(e),
    {
        GbError::new(GbErrorKind::LedgerError(e))
    }
}

impl vstd::std_specs::convert::FromSpecImpl<LedgerError> for GbError {
    open spec fn obeys_from_spec() -> bool {
        true
    }

    closed spec fn from_spec(v: LedgerError) -> GbError {
        GbError { kind: GbErrorKind::LedgerError(v) }
    }
}

impl From<HandError> for GbError {
    fn from(e: HandError) -> (r: GbError)
        ensures
            r.kind_view() == GbErrorKind::HandError(e),
    {
        GbError::new(GbErrorKind::HandError(e))
    }
}

impl vstd::std_specs::convert::FromSpecImpl<HandError> for GbError {
    open spec fn obeys_from_spec() -> bool {
        true
    }

    closed spec fn from_spec(v: HandError) -> GbError {
        GbError { kind: GbErrorKind::HandError(v) }
    }
}

impl From<DBError> for GbError {
    fn from(e: DBError) -> (r: GbError)
        ensures
            r.kind_view() == GbErrorKind::DBError(e),
    {
        GbError::new(GbErrorKind::DBError(e))
    }
}

impl vstd::std_specs::convert::FromSpecImpl<DBError> for GbError {
    open spec fn obeys_from_spec() -> bool {
        true
    }

    closed spec fn from_spec(v: DBError) -> GbError {
        GbError { kind: GbErrorKind::DBError(v) }
    }
}

impl From<sqlx::Error> for GbError {
    /// A database driver error is a database error of the driver.
    fn from(e: sqlx::Error) -> (r: GbError)
        ensures
            r.kind_view() == GbErrorKind::DBError(DBError::SqlxError(e)),
    {
        GbError::new(GbErrorKind::DBError(DBError::SqlxError(e)))
    }
}

impl vstd::std_specs::convert::FromSpecImpl<sqlx::Error> for GbError {
    open spec fn obeys_from_spec() -> bool {
        true
    }

    closed spec fn from_spec(v: sqlx::Error) -> GbError {
        GbError { kind: GbErrorKind::DBError(DBError::SqlxError(v)) }
    }
}

/// Turns the error of a file operation into an error of grabit that names
/// the path the operation was on.
pub trait IOResultExt<T>: Sized {
    fn with_path(self, path: &str) -> GbResult<T>;
}

impl<T> IOResultExt<T> for Result<T, std::io::Error> {
    /// A success is kept; a failure becomes an I/O error of grabit for
    /// `path`, chosen by the class of the failure's kind.
    fn with_path(self, path: &str) -> (r: GbResult<T>)
        ensures
            self is Ok ==> r is Ok && r->Ok_0 == self->Ok_0,
            self is Err ==> r is Err && (r->Err_0.kind_view() matches GbErrorKind::IOError(x)
                && io_error_for_class(
                x,
                class_of_kind(io_error_kind_of(self->Err_0)),
                path@,
                self->Err_0,
            )),
    {
        match self {
            Ok(v) => Ok(v),
            Err(e) => {
                let class = io_error_class(io_error_kind(&e));
                let x = io_error_for(class, path, e);
                Err(GbError::new(GbErrorKind::IOError(x)))
            },
        }
    }
}

} // verus!
