use query_meta::config::macros::Config as MacrosConfig;
use query_meta::config::{Config, ConfigCache, ConfigError, Loaded};
use std::cell::Cell;

fn config(var: Option<&str>) -> Config {
    Config { macros: MacrosConfig { database_url_var: var.map(str::to_string) } }
}

#[test]
fn url_var_defaults_to_database_url() {
    assert_eq!(config(None).macros.database_url_var(), "DATABASE_URL");
    assert_eq!(config(Some("APP_DB")).macros.database_url_var(), "APP_DB");
}

#[test]
fn cache_starts_empty() {
    let cache = ConfigCache::new();
    assert!(!cache.is_initialized());
}

#[test]
fn first_successful_load_is_kept() {
    let mut cache = ConfigCache::new();
    let calls = Cell::new(0);
    let first = Config::try_get_with(
        &mut cache,
        || Ok("/unit/sqlx.toml".to_string()),
        |path| {
            calls.set(calls.get() + 1);
            assert_eq!(path, "/unit/sqlx.toml");
            Loaded::Parsed(config(Some("FIRST")))
        },
    );
    assert!(first.is_ok());
    assert!(cache.is_initialized());
    assert_eq!(Config::get(&cache).macros.database_url_var(), "FIRST");

    let second = Config::try_get_with(
        &mut cache,
        || {
            calls.set(calls.get() + 1);
            Ok("/other/sqlx.toml".to_string())
        },
        |_| {
            calls.set(calls.get() + 1);
            Loaded::Parsed(config(Some("SECOND")))
        },
    );
    assert!(second.is_ok());
    assert_eq!(calls.get(), 1);
    assert_eq!(Config::get(&cache).macros.database_url_var(), "FIRST");
}

#[test]
fn failed_load_leaves_the_cache_empty() {
    let mut cache = ConfigCache::new();
    let loads = Cell::new(0);
    let error = Config::try_get_with(
        &mut cache,
        || Err(ConfigError::Env),
        |_| {
            loads.set(loads.get() + 1);
            Loaded::Parsed(config(None))
        },
    )
    .unwrap_err();
    assert!(matches!(error, ConfigError::Env));
    assert_eq!(error.message(), "CARGO_MANIFEST_DIR must be set and valid");
    assert_eq!(loads.get(), 0);
    assert!(!cache.is_initialized());

    let error = Config::try_get_with(
        &mut cache,
        || Ok("/unit/sqlx.toml".to_string()),
        |_| Loaded::Unreadable { detail: "no such file".to_string() },
    )
    .unwrap_err();
    assert!(matches!(
        &error,
        ConfigError::Read { path, detail } if path == "/unit/sqlx.toml" && detail == "no such file"
    ));
    assert_eq!(error.message(), "error reading config file \"/unit/sqlx.toml\"");
    assert!(!cache.is_initialized());

    let error = Config::try_get_with(
        &mut cache,
        || Ok("/unit/sqlx.toml".to_string()),
        |_| Loaded::Unparsable { detail: "expected a table".to_string() },
    )
    .unwrap_err();
    assert!(matches!(&error, ConfigError::Parse { path, .. } if path == "/unit/sqlx.toml"));
    assert_eq!(error.message(), "error parsing config file \"/unit/sqlx.toml\"");
    assert!(!cache.is_initialized());

    assert!(Config::try_get_with(
        &mut cache,
        || Ok("/unit/sqlx.toml".to_string()),
        |_| Loaded::Parsed(config(None)),
    )
    .is_ok());
    assert_eq!(Config::get(&cache).macros.database_url_var(), "DATABASE_URL");
}

#[test]
fn read_from_maps_each_outcome() {
    let ok = Config::read_from("p".to_string(), Loaded::Parsed(config(Some("X")))).unwrap();
    assert_eq!(ok.macros.database_url_var.as_deref(), Some("X"));
    assert!(matches!(
        Config::read_from("p".to_string(), Loaded::Unreadable { detail: "d".to_string() }),
        Err(ConfigError::Read { .. })
    ));
    assert!(matches!(
        Config::read_from("p".to_string(), Loaded::Unparsable { detail: "d".to_string() }),
        Err(ConfigError::Parse { .. })
    ));
}

#[test]
fn unknown_build_directory_is_an_env_failure() {
    let mut cache = ConfigCache::new();
    let loads = Cell::new(0);
    let error = Config::try_get(&mut cache, None, |_| {
        loads.set(loads.get() + 1);
        Loaded::Parsed(config(None))
    })
    .unwrap_err();
    assert!(matches!(error, ConfigError::Env));
    assert_eq!(loads.get(), 0);
    assert!(!cache.is_initialized());

    let error = Config::try_get(&mut cache, Some("/unit/sqlx.toml".to_string()), |_| {
        Loaded::Unreadable { detail: "gone".to_string() }
    })
    .unwrap_err();
    assert!(matches!(&error, ConfigError::Read { path, .. } if path == "/unit/sqlx.toml"));
    assert!(!cache.is_initialized());

    assert!(Config::try_get(&mut cache, Some("/unit/sqlx.toml".to_string()), |path| {
        assert_eq!(path, "/unit/sqlx.toml");
        Loaded::Parsed(config(Some("ONCE")))
    })
    .is_ok());
    assert!(Config::try_get(&mut cache, None, |_| Loaded::Parsed(config(Some("TWICE")))).is_ok());
    assert_eq!(Config::get(&cache).macros.database_url_var(), "ONCE");
}
