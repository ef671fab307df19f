//! The configuration of a build unit, read once and shared afterwards.

pub mod macros;

use crate::text::{debug_string, debug_text};
use vstd::prelude::*;

verus! {

/// The parsed structure of the configuration file.
#[derive(Clone, Debug)]
pub struct Config {
    /// Configuration of the query macros.
    pub macros: macros::Config,
}

/// Why the configuration could not be had.
#[derive(Clone, Debug)]
pub enum ConfigError {
    /// The directory of the build unit is not known.
    Env,
    /// The file at `path` could not be read.
    Read { path: String, detail: String },
    /// The file at `path` is not a configuration.
    Parse { path: String, detail: String },
}

pub ghost enum ConfigErrorView {
    Env,
    Read { path: Seq<char>, detail: Seq<char> },
    Parse { path: Seq<char>, detail: Seq<char> },
}

impl ConfigErrorView {
    /// The text shown to the user.
    pub open spec fn message(self) -> Seq<char> {
        match self {
            ConfigErrorView::Env => "CARGO_MANIFEST_DIR must be set and valid"@,
            ConfigErrorView::Read { path, .. } => "error reading config file "@ + debug_text(path),
            ConfigErrorView::Parse { path, .. } => "error parsing config file "@ + debug_text(path),
        }
    }
}

impl View for ConfigError {
    type V = ConfigErrorView;

    open spec fn view(&self) -> ConfigErrorView {
        match self {
            ConfigError::Env => ConfigErrorView::Env,
            ConfigError::Read { path, detail } => ConfigErrorView::Read {
                path: path@,
                detail: detail@,
            },
            ConfigError::Parse { path, detail } => ConfigErrorView::Parse {
                path: path@,
                detail: detail@,
            },
        }
    }
}

impl ConfigError {
    /// The text shown to the user.
    pub fn message(&self) -> (s: String)
        ensures
            s@ == self@.message(),
    {
        match self {
            ConfigError::Env => String::from_str("CARGO_MANIFEST_DIR must be set and valid"),
            ConfigError::Read { path, .. } => {
                let mut s = String::from_str("error reading config file ");
                let q = debug_string(path.as_str());
                s.append(q.as_str());
                s
            },
            ConfigError::Parse { path, .. } => {
                let mut s = String::from_str("error parsing config file ");
                let q = debug_string(path.as_str());
                s.append(q.as_str());
                s
            },
        }
    }
}

/// What came of reading the configuration file.
#[derive(Clone, Debug)]
pub enum Loaded {
    /// The file could not be read, for the reason given.
    Unreadable { detail: String },
    /// The file was read and is not a configuration, for the reason given.
    Unparsable { detail: String },
    Parsed(Config),
}

/// The place of the one configuration of a process. It starts empty, is
/// filled by the first load that succeeds, and never changes after that.
pub struct ConfigCache {
    slot: Option<Config>,
}

impl ConfigCache {
    /// The configuration held, if one was loaded.
    pub closed spec fn value(&self) -> Option<Config> {
        self.slot
    }

    /// An empty cache.
    pub fn new() -> (cache: ConfigCache)
        ensures
            cache.value() is None,
    {
        ConfigCache { slot: None }
    }

    /// Whether a configuration was loaded.
    pub fn is_initialized(&self) -> (b: bool)
        ensures
            b == self.value() is Some,
    {
        self.slot.is_some()
    }
}

/// What reading the file at `path` gives: the configuration, or the failure
/// with the path it happened at.
pub open spec fn read_outcome(path: Seq<char>, loaded: Loaded) -> Result<Config, ConfigErrorView> {
    match loaded {
        Loaded::Unreadable { detail } => Err(ConfigErrorView::Read { path, detail: detail@ }),
        Loaded::Unparsable { detail } => Err(ConfigErrorView::Parse { path, detail: detail@ }),
        Loaded::Parsed(config) => Ok(config),
    }
}

/// A configuration or the view of the failure.
pub open spec fn config_outcome(r: Result<Config, ConfigError>) -> Result<Config, ConfigErrorView> {
    match r {
        Ok(config) => Ok(config),
        Err(e) => Err(e@),
    }
}

impl Config {
    /// The configuration of the process, which must have been loaded.
    pub fn get(cache: &ConfigCache) -> (config: &Config)
        requires
            cache.value() is Some,
        ensures
            cache.value() == Some(*config),
    {
        cache.slot.as_ref().unwrap()
    }

    /// Loads the configuration from the file at `config_path` into `cache`
    /// unless it holds one already. `config_path` is `None` where the
    /// directory of the build unit is not known, which is a failure of its
    /// own. A failure leaves the cache empty.
    ///
    /// `load` need only be callable where the cache is empty and there is a
    /// path, and then on that path: on a loaded cache, or without a path,
    /// nothing is read.
    pub fn try_get<L: FnOnce(String) -> Loaded>(
        cache: &mut ConfigCache,
        config_path: Option<String>,
        load: L,
    ) -> (r: Result<(), ConfigError>)
        requires
            old(cache).value() is None ==> (config_path matches Some(path) ==> load.requires(
                (path,),
            )),
        ensures
            old(cache).value() is Some ==> r is Ok && final(cache).value() == old(cache).value(),
            old(cache).value() is None && config_path is None ==> final(cache).value() is None
                && (r matches Err(e) && e@ == ConfigErrorView::Env),
            old(cache).value() is None ==> (config_path matches Some(path) ==> exists|
                loaded: Loaded,
            |
                load.ensures((path,), loaded) && match r {
                    Ok(_) => final(cache).value() matches Some(config) && read_outcome(
                        path@,
                        loaded,
                    ) == Ok::<Config, ConfigErrorView>(config),
                    Err(e) => final(cache).value() is None && read_outcome(path@, loaded) == Err::<
                        Config,
                        ConfigErrorView,
                    >(e@),
                }),
    {
        if cache.slot.is_some() {
            return Ok(());
        }
        let path = match config_path {
            None => {
                return Err(ConfigError::Env);
            },
            Some(path) => path,
        };
        let kept = path.clone();
        let loaded = load(path);
        match Config::read_from(kept, loaded) {
            Err(e) => Err(e),
            Ok(config) => {
                cache.slot = Some(config);
                Ok(())
            },
        }
    }

    /// Loads the configuration into `cache` unless it holds one already. A
    /// failure leaves the cache empty, so that a later call tries again.
    ///
    /// `make_path` need only be callable where the cache is empty, and `load`
    /// only on a path that `make_path` gave: a loaded cache is handed back as
    /// it is, with neither of them called.
    pub fn try_get_with<P: FnOnce() -> Result<String, ConfigError>, L: FnOnce(String) -> Loaded>(
        cache: &mut ConfigCache,
        make_path: P,
        load: L,
    ) -> (r: Result<(), ConfigError>)
        requires
            old(cache).value() is None ==> make_path.requires(()),
            old(cache).value() is None ==> forall|path: String|
                make_path.ensures((), Ok(path)) ==> load.requires((path,)),
        ensures
            old(cache).value() is Some ==> r is Ok && final(cache).value() == old(cache).value(),
            old(cache).value() is None ==> match r {
                Ok(_) => exists|path: String, loaded: Loaded|
                    make_path.ensures((), Ok(path)) && load.ensures((path,), loaded)
                        && read_outcome(path@, loaded) == Ok::<Config, ConfigErrorView>(
                        final(cache).value().unwrap(),
                    ) && final(cache).value() is Some,
                Err(e) => final(cache).value() is None && (make_path.ensures((), Err(e))
                    || exists|path: String, loaded: Loaded|
                    make_path.ensures((), Ok(path)) && load.ensures((path,), loaded)
                        && read_outcome(path@, loaded) == Err::<Config, ConfigErrorView>(e@)),
            },
    {
        if cache.slot.is_some() {
            return Ok(());
        }
        let path = match make_path() {
            Err(e) => {
                return Err(e);
            },
            Ok(path) => path,
        };
        let kept = path.clone();
        let loaded = load(path);
        match Config::read_from(kept, loaded) {
            Err(e) => Err(e),
            Ok(config) => {
                cache.slot = Some(config);
                Ok(())
            },
        }
    }

    /// Turns what reading the file at `path` gave into the configuration or
    /// the failure.
    pub fn read_from(path: String, loaded: Loaded) -> (r: Result<Config, ConfigError>)
        ensures
            config_outcome(r) == read_outcome(path@, loaded),
    {
        match loaded {
            Loaded::Unreadable { detail } => Err(ConfigError::Read { path, detail }),
            Loaded::Unparsable { detail } => Err(ConfigError::Parse { path, detail }),
            Loaded::Parsed(config) => Ok(config),
        }
    }
}

} // verus!
