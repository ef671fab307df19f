//! The failures of one query expansion. Each ends that expansion: nothing is
//! retried and no partial binding is produced.

use crate::text::{debug_string, debug_text, decimal, decimal_string};
use vstd::prelude::*;

verus! {

/// The broad kind of a failure.
#[derive(Clone, Copy, Debug, PartialEq, Eq, Structural)]
pub enum ErrorKind {
    /// The live connection string is not a URL.
    InvalidUrl,
    /// No registered driver answers to the URL scheme or to the cached
    /// backend name.
    NoMatchingDriver,
    /// No cached artifact was found for the query.
    CacheMiss,
    /// A cached artifact does not belong to the query or to the driver.
    ArtifactMismatch,
    /// The number of arguments disagrees with the query's parameters.
    ArityMismatch,
    /// The columns do not fit the requested output shape.
    SchemaMismatch,
    /// Fresh metadata was to be written, and the target is no directory.
    CachePersistFailure,
}

/// A failure of one query expansion.
#[derive(Debug)]
pub enum Error {
    InvalidUrl { detail: String },
    NoDriverForScheme { scheme: String },
    NoDriverForCachedDatabase { db_name: String },
    CacheMiss { offline: bool, url_var: String },
    HashCollision,
    DriverMismatch { expected: String, found: String },
    ArityMismatch { expected: usize, found: usize },
    WildcardInGeneratedRecord,
    ScalarColumnCount { found: usize },
    OfflineDirMissing { dir: String },
    OfflineDirNotDirectory { dir: String },
    OfflineDirInaccessible { dir: String, detail: String },
}

/// The mathematical value of an [`Error`].
pub ghost enum ErrorView {
    InvalidUrl { detail: Seq<char> },
    NoDriverForScheme { scheme: Seq<char> },
    NoDriverForCachedDatabase { db_name: Seq<char> },
    CacheMiss { offline: bool, url_var: Seq<char> },
    HashCollision,
    DriverMismatch { expected: Seq<char>, found: Seq<char> },
    ArityMismatch { expected: nat, found: nat },
    WildcardInGeneratedRecord,
    ScalarColumnCount { found: nat },
    OfflineDirMissing { dir: Seq<char> },
    OfflineDirNotDirectory { dir: Seq<char> },
    OfflineDirInaccessible { dir: Seq<char>, detail: Seq<char> },
}

impl ErrorView {
    pub open spec fn kind(self) -> ErrorKind {
        match self {
            ErrorView::InvalidUrl { .. } => ErrorKind::InvalidUrl,
            ErrorView::NoDriverForScheme { .. } => ErrorKind::NoMatchingDriver,
            ErrorView::NoDriverForCachedDatabase { .. } => ErrorKind::NoMatchingDriver,
            ErrorView::CacheMiss { .. } => ErrorKind::CacheMiss,
            ErrorView::HashCollision => ErrorKind::ArtifactMismatch,
            ErrorView::DriverMismatch { .. } => ErrorKind::ArtifactMismatch,
            ErrorView::ArityMismatch { .. } => ErrorKind::ArityMismatch,
            ErrorView::WildcardInGeneratedRecord => ErrorKind::SchemaMismatch,
            ErrorView::ScalarColumnCount { .. } => ErrorKind::SchemaMismatch,
            ErrorView::OfflineDirMissing { .. } => ErrorKind::CachePersistFailure,
            ErrorView::OfflineDirNotDirectory { .. } => ErrorKind::CachePersistFailure,
            ErrorView::OfflineDirInaccessible { .. } => ErrorKind::CachePersistFailure,
        }
    }

    /// The text shown to the user.
    pub open spec fn message(self) -> Seq<char> {
        match self {
            ErrorView::InvalidUrl { detail } => detail,
            ErrorView::NoDriverForScheme { scheme } => {
                "no database driver found matching URL scheme "@ + debug_text(scheme)
                    + "; the corresponding Cargo feature may need to be enabled"@
            },
            ErrorView::NoDriverForCachedDatabase { db_name } => {
                "found cached data for database "@ + debug_text(db_name)
                    + " but no matching driver; the corresponding Cargo feature may need to be enabled"@
            },
            ErrorView::CacheMiss { offline, url_var } => {
                if offline {
                    "`SQLX_OFFLINE=true` but there is no cached data for this query, run `cargo sqlx prepare` (with `sqlx-cli` installed) to update the query cache or unset `SQLX_OFFLINE`"@
                } else {
                    "set `"@ + url_var
                        + "` to use query macros online, or run `cargo sqlx prepare` (with `sqlx-cli` installed) to update the query cache"@
                }
            },
            ErrorView::HashCollision => "hash collision for saved query data"@,
            ErrorView::DriverMismatch { expected, found } => {
                "expected query data for "@ + expected + ", got data for "@ + found
            },
            ErrorView::ArityMismatch { expected, found } => {
                "expected "@ + decimal(expected) + " parameters, got "@ + decimal(found)
            },
            ErrorView::WildcardInGeneratedRecord => {
                "wildcard overrides are only allowed with an explicit record type, e.g. `query_as!()` and its variants"@
            },
            ErrorView::ScalarColumnCount { found } => {
                "expected exactly 1 column, got "@ + decimal(found)
            },
            ErrorView::OfflineDirMissing { dir } => "sqlx offline path does not exist: "@ + dir,
            ErrorView::OfflineDirNotDirectory { dir } => {
                "sqlx offline path exists, but is not a directory: "@ + dir
            },
            ErrorView::OfflineDirInaccessible { dir, detail } => detail + ": "@ + dir,
        }
    }
}

impl View for Error {
    type V = ErrorView;

    open spec fn view(&self) -> ErrorView {
        match self {
            Error::InvalidUrl { detail } => ErrorView::InvalidUrl { detail: detail@ },
            Error::NoDriverForScheme { scheme } => ErrorView::NoDriverForScheme {
                scheme: scheme@,
            },
            Error::NoDriverForCachedDatabase { db_name } => ErrorView::NoDriverForCachedDatabase {
                db_name: db_name@,
            },
            Error::CacheMiss { offline, url_var } => ErrorView::CacheMiss {
                offline: *offline,
                url_var: url_var@,
            },
            Error::HashCollision => ErrorView::HashCollision,
            Error::DriverMismatch { expected, found } => ErrorView::DriverMismatch {
                expected: expected@,
                found: found@,
            },
            Error::ArityMismatch { expected, found } => ErrorView::ArityMismatch {
                expected: *expected as nat,
                found: *found as nat,
            },
            Error::WildcardInGeneratedRecord => ErrorView::WildcardInGeneratedRecord,
            Error::ScalarColumnCount { found } => ErrorView::ScalarColumnCount {
                found: *found as nat,
            },
            Error::OfflineDirMissing { dir } => ErrorView::OfflineDirMissing { dir: dir@ },
            Error::OfflineDirNotDirectory { dir } => ErrorView::OfflineDirNotDirectory {
                dir: dir@,
            },
            Error::OfflineDirInaccessible { dir, detail } => ErrorView::OfflineDirInaccessible {
                dir: dir@,
                detail: detail@,
            },
        }
    }
}

/// The mathematical value of an outcome: that of the result, or that of the
/// failure.
pub open spec fn outcome<T: View>(r: Result<T, Error>) -> Result<T::V, ErrorView> {
    match r {
        Ok(v) => Ok(v@),
        Err(e) => Err(e@),
    }
}

impl Error {
    /// The broad kind of this failure.
    pub fn kind(&self) -> (k: ErrorKind)
        ensures
            k == self@.kind(),
    {
        match self {
            Error::InvalidUrl { .. } => ErrorKind::InvalidUrl,
            Error::NoDriverForScheme { .. } => ErrorKind::NoMatchingDriver,
            Error::NoDriverForCachedDatabase { .. } => ErrorKind::NoMatchingDriver,
            Error::CacheMiss { .. } => ErrorKind::CacheMiss,
            Error::HashCollision => ErrorKind::ArtifactMismatch,
            Error::DriverMismatch { .. } => ErrorKind::ArtifactMismatch,
            Error::ArityMismatch { .. } => ErrorKind::ArityMismatch,
            Error::WildcardInGeneratedRecord => ErrorKind::SchemaMismatch,
            Error::ScalarColumnCount { .. } => ErrorKind::SchemaMismatch,
            Error::OfflineDirMissing { .. } => ErrorKind::CachePersistFailure,
            Error::OfflineDirNotDirectory { .. } => ErrorKind::CachePersistFailure,
            Error::OfflineDirInaccessible { .. } => ErrorKind::CachePersistFailure,
        }
    }

    /// The text shown to the user: what failed, and what to change.
    pub fn message(&self) -> (s: String)
        ensures
            s@ == self@.message(),
    {
        match self {
            Error::InvalidUrl { detail } => detail.clone(),
            Error::NoDriverForScheme { scheme } => {
                let mut s = String::from_str("no database driver found matching URL scheme ");
                let q = debug_string(scheme.as_str());
                s.append(q.as_str());
                s.append("; the corresponding Cargo feature may need to be enabled");
                s
            },
            Error::NoDriverForCachedDatabase { db_name } => {
                let mut s = String::from_str("found cached data for database ");
                let q = debug_string(db_name.as_str());
                s.append(q.as_str());
                s.append(
                    " but no matching driver; the corresponding Cargo feature may need to be enabled",
                );
                s
            },
            Error::CacheMiss { offline, url_var } => {
                if *offline {
                    String::from_str(
                        "`SQLX_OFFLINE=true` but there is no cached data for this query, run `cargo sqlx prepare` (with `sqlx-cli` installed) to update the query cache or unset `SQLX_OFFLINE`",
                    )
                } else {
                    let mut s = String::from_str("set `");
                    s.append(url_var.as_str());
                    s.append(
                        "` to use query macros online, or run `cargo sqlx prepare` (with `sqlx-cli` installed) to update the query cache",
                    );
                    s
                }
            },
            Error::HashCollision => String::from_str("hash collision for saved query data"),
            Error::DriverMismatch { expected, found } => {
                let mut s = String::from_str("expected query data for ");
                s.append(expected.as_str());
                s.append(", got data for ");
                s.append(found.as_str());
                s
            },
            Error::ArityMismatch { expected, found } => {
                let mut s = String::from_str("expected ");
                let e = decimal_string(*expected);
                s.append(e.as_str());
                s.append(" parameters, got ");
                let f = decimal_string(*found);
                s.append(f.as_str());
                s
            },
            Error::WildcardInGeneratedRecord => String::from_str(
                "wildcard overrides are only allowed with an explicit record type, e.g. `query_as!()` and its variants",
            ),
            Error::ScalarColumnCount { found } => {
                let mut s = String::from_str("expected exactly 1 column, got ");
                let f = decimal_string(*found);
                s.append(f.as_str());
                s
            },
            Error::OfflineDirMissing { dir } => {
                let mut s = String::from_str("sqlx offline path does not exist: ");
                s.append(dir.as_str());
                s
            },
            Error::OfflineDirNotDirectory { dir } => {
                let mut s = String::from_str("sqlx offline path exists, but is not a directory: ");
                s.append(dir.as_str());
                s
            },
            Error::OfflineDirInaccessible { dir, detail } => {
                let mut s = detail.clone();
                s.append(": ");
                s.append(dir.as_str());
                s
            },
        }
    }
}

} // verus!
