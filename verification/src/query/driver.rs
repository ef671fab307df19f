//! The registered drivers, the source of a query's description, and the
//! choice of the driver that answers to a source.

use crate::error::{Error, ErrorView};
use crate::query::data::{DynQueryData, QueryDataView};
use crate::text::{str_eq, texts_view};
use vstd::prelude::*;

verus! {

/// The registration of one backend: its name and the URL schemes it answers
/// to.
#[derive(Clone, Debug)]
pub struct QueryDriver {
    pub db_name: String,
    pub url_schemes: Vec<String>,
}

pub ghost struct QueryDriverView {
    pub db_name: Seq<char>,
    pub url_schemes: Seq<Seq<char>>,
}

impl View for QueryDriver {
    type V = QueryDriverView;

    open spec fn view(&self) -> QueryDriverView {
        QueryDriverView { db_name: self.db_name@, url_schemes: texts_view(self.url_schemes@) }
    }
}

/// The views of a run of drivers, in order of registration.
pub open spec fn drivers_view(drivers: Seq<QueryDriver>) -> Seq<QueryDriverView> {
    Seq::new(drivers.len(), |i: int| drivers[i]@)
}

impl QueryDriver {
    pub fn new(db_name: &str, url_schemes: Vec<String>) -> (driver: QueryDriver)
        ensures
            driver@ == (QueryDriverView {
                db_name: db_name@,
                url_schemes: texts_view(url_schemes@),
            }),
    {
        QueryDriver { db_name: String::from_str(db_name), url_schemes }
    }

    /// Whether the driver answers to `scheme`. Schemes are compared as they
    /// are written, case included.
    pub fn accepts_scheme(&self, scheme: &str) -> (b: bool)
        ensures
            b == self@.url_schemes.contains(scheme@),
    {
        let mut i: usize = 0;
        while i < self.url_schemes.len()
            invariant
                i <= self.url_schemes.len(),
                forall|j: int| 0 <= j < i ==> self@.url_schemes[j] != scheme@,
            decreases self.url_schemes.len() - i,
        {
            if str_eq(self.url_schemes[i].as_str(), scheme) {
                assert(self@.url_schemes[i as int] == scheme@);
                return true;
            }
            i += 1;
        }
        false
    }
}

/// The scheme of a connection string that parses as a URL; `None` for one
/// that does not.
pub uninterp spec fn url_scheme(input: Seq<char>) -> Option<Seq<char>>;

#[verifier::external_type_specification]
#[verifier::external_body]
pub struct ExParseError(url::ParseError);

/// `url::Url::parse`, followed by `Url::scheme` on the URL it gives: the
/// scheme of `input` where it parses as a URL, the parser's error where it
/// does not. Whether a text parses, and to which scheme, depends on the text
/// alone.
#[verifier::external_body]
fn parse_url_scheme(input: &str) -> (r: Result<String, url::ParseError>)
    ensures
        match r {
            Ok(scheme) => url_scheme(input@) == Some(scheme@),
            Err(_) => url_scheme(input@) is None,
        },
{
    url::Url::parse(input).map(|url| url.scheme().to_string())
}

/// `ToString::to_string` on a `url::ParseError`: the text that the parser
/// gives for its error. Nothing is claimed of that text.
#[verifier::external_body]
fn parse_error_text(error: &url::ParseError) -> (text: String) {
    error.to_string()
}

/// Where the description of a query comes from.
#[derive(Clone, Debug)]
pub enum QueryDataSource {
    /// A live data source, to be introspected.
    Live { database_url: String, scheme: String },
    /// A cached artifact.
    Cached(DynQueryData),
}

pub ghost enum QueryDataSourceView {
    Live { database_url: Seq<char>, scheme: Seq<char> },
    Cached(QueryDataView),
}

impl View for QueryDataSource {
    type V = QueryDataSourceView;

    open spec fn view(&self) -> QueryDataSourceView {
        match self {
            QueryDataSource::Live { database_url, scheme } => QueryDataSourceView::Live {
                database_url: database_url@,
                scheme: scheme@,
            },
            QueryDataSource::Cached(data) => QueryDataSourceView::Cached(data@),
        }
    }
}

impl QueryDataSourceView {
    /// Whether a driver answers to this source: by the URL scheme for a live
    /// one, by the name of the owning backend for a cached one.
    pub open spec fn matches_driver(self, driver: QueryDriverView) -> bool {
        match self {
            QueryDataSourceView::Live { scheme, .. } => driver.url_schemes.contains(scheme),
            QueryDataSourceView::Cached(data) => data.db_name == driver.db_name,
        }
    }

    /// The failure to report when no driver answers to this source.
    pub open spec fn no_driver(self) -> ErrorView {
        match self {
            QueryDataSourceView::Live { scheme, .. } => ErrorView::NoDriverForScheme { scheme },
            QueryDataSourceView::Cached(data) => ErrorView::NoDriverForCachedDatabase {
                db_name: data.db_name,
            },
        }
    }

    /// The first driver from position `from` on that answers to this source.
    pub open spec fn first_match(self, drivers: Seq<QueryDriverView>, from: int) -> Option<int>
        decreases drivers.len() - from,
    {
        if from < 0 || from >= drivers.len() {
            None
        } else if self.matches_driver(drivers[from]) {
            Some(from)
        } else {
            self.first_match(drivers, from + 1)
        }
    }

    /// The driver that expands a query from this source: the first
    /// registered one that answers to it.
    pub open spec fn dispatch(self, drivers: Seq<QueryDriverView>) -> Result<int, ErrorView> {
        match self.first_match(drivers, 0) {
            Some(i) => Ok(i),
            None => Err(self.no_driver()),
        }
    }
}

impl QueryDataSource {
    /// The live source at `database_url`, which must be a URL.
    pub fn live(database_url: &str) -> (r: Result<QueryDataSource, Error>)
        ensures
            match r {
                Ok(source) => url_scheme(database_url@) matches Some(scheme) && source@ == (
                QueryDataSourceView::Live { database_url: database_url@, scheme }),
                Err(e) => url_scheme(database_url@) is None && e@ is InvalidUrl,
            },
    {
        match parse_url_scheme(database_url) {
            Ok(scheme) => Ok(
                QueryDataSource::Live { database_url: String::from_str(database_url), scheme },
            ),
            Err(error) => Err(Error::InvalidUrl { detail: parse_error_text(&error) }),
        }
    }

    /// Whether `driver` answers to this source.
    pub fn matches_driver(&self, driver: &QueryDriver) -> (b: bool)
        ensures
            b == self@.matches_driver(driver@),
    {
        match self {
            QueryDataSource::Live { scheme, .. } => driver.accepts_scheme(scheme.as_str()),
            QueryDataSource::Cached(data) => str_eq(data.db_name.as_str(), driver.db_name.as_str()),
        }
    }

    /// The failure to report when no driver answers to this source.
    pub fn no_driver(&self) -> (e: Error)
        ensures
            e@ == self@.no_driver(),
    {
        match self {
            QueryDataSource::Live { scheme, .. } => Error::NoDriverForScheme {
                scheme: scheme.clone(),
            },
            QueryDataSource::Cached(data) => Error::NoDriverForCachedDatabase {
                db_name: data.db_name.clone(),
            },
        }
    }

    /// Selects the driver that expands a query from this source: the first of
    /// `drivers`, in order of registration, that answers to it.
    pub fn select_driver(&self, drivers: &Vec<QueryDriver>) -> (r: Result<usize, Error>)
        ensures
            match r {
                Ok(i) => self@.dispatch(drivers_view(drivers@)) == Ok::<int, ErrorView>(i as int),
                Err(e) => self@.dispatch(drivers_view(drivers@)) == Err::<int, ErrorView>(e@),
            },
            r matches Ok(i) ==> i < drivers.len(),
    {
        let mut i: usize = 0;
        while i < drivers.len()
            invariant
                i <= drivers.len(),
                self@.first_match(drivers_view(drivers@), 0) == self@.first_match(
                    drivers_view(drivers@),
                    i as int,
                ),
            decreases drivers.len() - i,
        {
            if self.matches_driver(&drivers[i]) {
                return Ok(i);
            }
            i += 1;
        }
        Err(self.no_driver())
    }
}

/// Dispatch is total and goes by the order of registration: a driver is
/// selected exactly when it answers to the source and none before it does,
/// and dispatch fails exactly when no driver answers.
pub proof fn lemma_dispatch_first_match(
    source: QueryDataSourceView,
    drivers: Seq<QueryDriverView>,
    i: int,
)
    ensures
        source.dispatch(drivers) == Ok::<int, ErrorView>(i) <==> (0 <= i < drivers.len()
            && source.matches_driver(drivers[i]) && forall|j: int|
            0 <= j < i ==> !source.matches_driver(#[trigger] drivers[j])),
        source.dispatch(drivers) is Err <==> (forall|j: int|
            0 <= j < drivers.len() ==> !source.matches_driver(#[trigger] drivers[j])),
        source.dispatch(drivers) is Err ==> source.dispatch(drivers) == Err::<int, ErrorView>(
            source.no_driver(),
        ),
{
    lemma_first_match_from(source, drivers, 0);
}

/// What the search from position `from` on finds.
proof fn lemma_first_match_from(
    source: QueryDataSourceView,
    drivers: Seq<QueryDriverView>,
    from: int,
)
    requires
        0 <= from,
    ensures
        match source.first_match(drivers, from) {
            Some(k) => from <= k < drivers.len() && source.matches_driver(drivers[k]) && forall|
                j: int,
            |
                from <= j < k ==> !source.matches_driver(#[trigger] drivers[j]),
            None => forall|j: int|
                from <= j < drivers.len() ==> !source.matches_driver(#[trigger] drivers[j]),
        },
    decreases drivers.len() - from,
{
    if from < drivers.len() && !source.matches_driver(drivers[from]) {
        lemma_first_match_from(source, drivers, from + 1);
    }
}

} // verus!
