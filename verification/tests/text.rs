use query_meta::error::{Error, ErrorKind};
use query_meta::text::{decimal_string, str_eq};

#[test]
fn decimal_of_small_and_large() {
    assert_eq!(decimal_string(0), "0");
    assert_eq!(decimal_string(7), "7");
    assert_eq!(decimal_string(10), "10");
    assert_eq!(decimal_string(109), "109");
    assert_eq!(decimal_string(1234567890), "1234567890");
    assert_eq!(decimal_string(usize::MAX), usize::MAX.to_string());
}

#[test]
fn str_eq_is_case_sensitive() {
    assert!(str_eq("postgres", "postgres"));
    assert!(!str_eq("postgres", "Postgres"));
    assert!(!str_eq("postgres", "postgre"));
    assert!(str_eq("", ""));
}

#[test]
fn arity_message_names_both_counts() {
    let e = Error::ArityMismatch { expected: 2, found: 13 };
    assert_eq!(e.message(), "expected 2 parameters, got 13");
    assert_eq!(e.kind(), ErrorKind::ArityMismatch);
}

#[test]
fn cache_miss_message_differs_by_mode() {
    let offline = Error::CacheMiss { offline: true, url_var: "DATABASE_URL".to_string() };
    assert_eq!(
        offline.message(),
        "`SQLX_OFFLINE=true` but there is no cached data for this query, run `cargo sqlx prepare` (with `sqlx-cli` installed) to update the query cache or unset `SQLX_OFFLINE`"
    );
    let online = Error::CacheMiss { offline: false, url_var: "MY_DB".to_string() };
    assert_eq!(
        online.message(),
        "set `MY_DB` to use query macros online, or run `cargo sqlx prepare` (with `sqlx-cli` installed) to update the query cache"
    );
    assert_eq!(offline.kind(), ErrorKind::CacheMiss);
    assert_eq!(online.kind(), ErrorKind::CacheMiss);
}

#[test]
fn no_driver_messages_differ_by_source() {
    let by_scheme = Error::NoDriverForScheme { scheme: "mysql".to_string() };
    assert_eq!(
        by_scheme.message(),
        "no database driver found matching URL scheme \"mysql\"; the corresponding Cargo feature may need to be enabled"
    );
    let by_name = Error::NoDriverForCachedDatabase { db_name: "MySQL".to_string() };
    assert_eq!(
        by_name.message(),
        "found cached data for database \"MySQL\" but no matching driver; the corresponding Cargo feature may need to be enabled"
    );
    assert_eq!(by_scheme.kind(), ErrorKind::NoMatchingDriver);
    assert_eq!(by_name.kind(), ErrorKind::NoMatchingDriver);
}

#[test]
fn schema_messages() {
    let wildcard = Error::WildcardInGeneratedRecord;
    assert_eq!(
        wildcard.message(),
        "wildcard overrides are only allowed with an explicit record type, e.g. `query_as!()` and its variants"
    );
    assert_eq!(wildcard.kind(), ErrorKind::SchemaMismatch);
    let scalar = Error::ScalarColumnCount { found: 3 };
    assert_eq!(scalar.message(), "expected exactly 1 column, got 3");
    assert_eq!(scalar.kind(), ErrorKind::SchemaMismatch);
}

#[test]
fn persist_messages() {
    let missing = Error::OfflineDirMissing { dir: ".sqlx".to_string() };
    assert_eq!(missing.message(), "sqlx offline path does not exist: .sqlx");
    let not_dir = Error::OfflineDirNotDirectory { dir: ".sqlx".to_string() };
    assert_eq!(not_dir.message(), "sqlx offline path exists, but is not a directory: .sqlx");
    let denied = Error::OfflineDirInaccessible {
        dir: ".sqlx".to_string(),
        detail: "permission denied".to_string(),
    };
    assert_eq!(denied.message(), "permission denied: .sqlx");
    assert_eq!(missing.kind(), ErrorKind::CachePersistFailure);
    assert_eq!(not_dir.kind(), ErrorKind::CachePersistFailure);
    assert_eq!(denied.kind(), ErrorKind::CachePersistFailure);
}

#[test]
fn artifact_messages() {
    let collision = Error::HashCollision;
    assert_eq!(collision.message(), "hash collision for saved query data");
    assert_eq!(collision.kind(), ErrorKind::ArtifactMismatch);
    let other = Error::DriverMismatch { expected: "postgres".to_string(), found: "mysql".to_string() };
    assert_eq!(other.message(), "expected query data for postgres, got data for mysql");
    assert_eq!(other.kind(), ErrorKind::ArtifactMismatch);
    let url = Error::InvalidUrl { detail: "relative URL without a base".to_string() };
    assert_eq!(url.message(), "relative URL without a base");
    assert_eq!(url.kind(), ErrorKind::InvalidUrl);
}
