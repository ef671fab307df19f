//! Resolution, dispatch and expansion of one embedded query.

pub mod data;
pub mod describe;
pub mod driver;
pub mod input;
pub mod metadata;
pub mod output;

use crate::error::{outcome, Error, ErrorView};
use crate::query::data::{
    accept_artifact, cache_file_name, file_name_of_hash, own_artifact, query_file_name,
    query_hash, DynQueryData, QueryData, QueryDataView,
};
use crate::query::describe::{Describe, DescribeView};
use crate::query::driver::{drivers_view, url_scheme, QueryDataSourceView, QueryDriverView};
pub use crate::query::driver::{QueryDataSource, QueryDriver};
use crate::query::input::{QueryMacroInput, QueryMacroInputView, RecordType, RecordTypeView};
use crate::query::metadata::{
    may_search, search, searched, CacheDir, CacheLookup, CacheLookupView, Metadata, MetadataView,
};
use crate::query::output::{
    any_wildcard, column_to_rust, columns_to_rust, has_wildcard, rust_column, rust_columns,
    bound_args_view, rust_columns_view, Binding, BindingView, BoundArg, BoundArgView, Output,
    OutputView,
};
use crate::text::texts_view;
use crate::type_info::TypeInfo;
use vstd::prelude::*;

verus! {

/// What was found at the path where fresh descriptions are to be saved.
#[derive(Clone, Debug)]
pub enum DirState {
    Directory,
    NotDirectory,
    Missing,
    /// The path could not be examined, for the reason given.
    Inaccessible { detail: String },
}

pub ghost enum DirStateView {
    Directory,
    NotDirectory,
    Missing,
    Inaccessible { detail: Seq<char> },
}

impl View for DirState {
    type V = DirStateView;

    open spec fn view(&self) -> DirStateView {
        match self {
            DirState::Directory => DirStateView::Directory,
            DirState::NotDirectory => DirStateView::NotDirectory,
            DirState::Missing => DirStateView::Missing,
            DirState::Inaccessible { detail } => DirStateView::Inaccessible { detail: detail@ },
        }
    }
}

/// The directory configured for saving fresh descriptions, and what lies at
/// its path.
#[derive(Clone, Debug)]
pub struct OfflineDir {
    pub path: String,
    pub state: DirState,
}

pub ghost struct OfflineDirView {
    pub path: Seq<char>,
    pub state: DirStateView,
}

impl View for OfflineDir {
    type V = OfflineDirView;

    open spec fn view(&self) -> OfflineDirView {
        OfflineDirView { path: self.path@, state: self.state@ }
    }
}

pub open spec fn offline_dir_view(dir: Option<OfflineDir>) -> Option<OfflineDirView> {
    match dir {
        Some(d) => Some(d@),
        None => None,
    }
}

/// A description to write afresh: where, under which name, and what.
#[derive(Clone, Debug)]
pub struct Persist {
    pub dir: String,
    pub file_name: String,
    pub data: QueryData,
}

pub ghost struct PersistView {
    pub dir: Seq<char>,
    pub file_name: Seq<char>,
    pub data: QueryDataView,
}

impl View for Persist {
    type V = PersistView;

    open spec fn view(&self) -> PersistView {
        PersistView { dir: self.dir@, file_name: self.file_name@, data: self.data@ }
    }
}

/// The outcome of one expansion: the binding, and the description to save
/// where one is to be saved.
#[derive(Clone, Debug)]
pub struct Expansion {
    pub binding: Binding,
    pub persist: Option<Persist>,
}

pub ghost struct ExpansionView {
    pub binding: BindingView,
    pub persist: Option<PersistView>,
}

impl View for Expansion {
    type V = ExpansionView;

    open spec fn view(&self) -> ExpansionView {
        ExpansionView {
            binding: self.binding@,
            persist: match self.persist {
                Some(p) => Some(p@),
                None => None,
            },
        }
    }
}

/// The failure of the arity check, if it fails: the number of parameters is
/// known and differs from the number of arguments.
pub open spec fn arity_error(arg_count: nat, describe: DescribeView) -> Option<ErrorView> {
    match describe.parameter_count() {
        Some(expected) => if expected != arg_count {
            Some(ErrorView::ArityMismatch { expected, found: arg_count })
        } else {
            None
        },
        None => None,
    }
}

/// The arguments of the binding: each expression of the call site, in call
/// order, with the backend type of the parameter it fills, where known.
pub open spec fn binding_args(arg_exprs: Seq<Seq<char>>, describe: DescribeView) -> Seq<
    BoundArgView,
> {
    Seq::new(
        arg_exprs.len(),
        |i: int| BoundArgView { expr: arg_exprs[i], expected: describe.parameter_type(i) },
    )
}

/// The output of the binding for a requested shape and a description.
pub open spec fn output_shape(record_type: RecordTypeView, describe: DescribeView) -> Result<
    OutputView,
    ErrorView,
> {
    let fields = rust_columns(describe.columns);
    if describe.all_void() {
        Ok(OutputView::Void)
    } else {
        match record_type {
            RecordTypeView::Generated => if has_wildcard(fields) {
                Err(ErrorView::WildcardInGeneratedRecord)
            } else {
                Ok(OutputView::GeneratedRecord { fields })
            },
            RecordTypeView::Given(out_ty) => Ok(OutputView::GivenRecord { out_ty, fields }),
            RecordTypeView::Scalar => if describe.columns.len() != 1 {
                Err(ErrorView::ScalarColumnCount { found: describe.columns.len() })
            } else {
                Ok(OutputView::Scalar { column: rust_column(describe.columns[0]) })
            },
        }
    }
}

/// Where a fresh description is to be saved: nowhere when it came from the
/// cache or no directory is configured; else in the configured directory,
/// which must exist and be a directory.
pub open spec fn persist_dir(offline: bool, dir: Option<OfflineDirView>) -> Result<
    Option<Seq<char>>,
    ErrorView,
> {
    if offline {
        Ok(None)
    } else {
        match dir {
            None => Ok(None),
            Some(d) => match d.state {
                DirStateView::Directory => Ok(Some(d.path)),
                DirStateView::NotDirectory => Err(ErrorView::OfflineDirNotDirectory { dir: d.path }),
                DirStateView::Missing => Err(ErrorView::OfflineDirMissing { dir: d.path }),
                DirStateView::Inaccessible { detail } => Err(
                    ErrorView::OfflineDirInaccessible { dir: d.path, detail },
                ),
            },
        }
    }
}

/// The outcome of expanding `input` against `data`. The checks come in this
/// order: the arity, the output shape, the place to save in. The first that
/// fails decides, and then there is no binding.
pub open spec fn expansion(
    input: QueryMacroInputView,
    data: QueryDataView,
    offline: bool,
    dir: Option<OfflineDirView>,
) -> Result<ExpansionView, ErrorView> {
    match arity_error(input.arg_exprs.len(), data.describe) {
        Some(e) => Err(e),
        None => match output_shape(input.record_type, data.describe) {
            Err(e) => Err(e),
            Ok(output) => match persist_dir(offline, dir) {
                Err(e) => Err(e),
                Ok(target) => Ok(
                    ExpansionView {
                        binding: BindingView {
                            sql: input.sql,
                            args: binding_args(input.arg_exprs, data.describe),
                            output,
                        },
                        persist: match target {
                            Some(path) => Some(
                                PersistView {
                                    dir: path,
                                    file_name: file_name_of_hash(data.hash),
                                    data,
                                },
                            ),
                            None => None,
                        },
                    },
                ),
            },
        },
    }
}

/// Checks that the number of arguments is the number of parameters, where
/// that number is known.
pub fn check_arity(arg_count: usize, describe: &Describe) -> (r: Result<(), Error>)
    ensures
        r is Ok <==> arity_error(arg_count as nat, describe@) is None,
        r matches Err(e) ==> arity_error(arg_count as nat, describe@) == Some(e@),
{
    match describe.parameter_count() {
        Some(expected) => {
            if expected != arg_count {
                Err(Error::ArityMismatch { expected, found: arg_count })
            } else {
                Ok(())
            }
        },
        None => Ok(()),
    }
}

/// Binds each argument expression to the parameter it fills.
pub fn quote_args(arg_exprs: Vec<String>, describe: &Describe) -> (args: Vec<BoundArg>)
    ensures
        bound_args_view(args@) == binding_args(texts_view(arg_exprs@), describe@),
{
    let mut args: Vec<BoundArg> = Vec::new();
    let mut i: usize = 0;
    while i < arg_exprs.len()
        invariant
            i <= arg_exprs.len(),
            args@.len() == i,
            forall|j: int|
                0 <= j < i ==> (#[trigger] args@[j])@ == (BoundArgView {
                    expr: arg_exprs@[j]@,
                    expected: describe@.parameter_type(j),
                }),
        decreases arg_exprs.len() - i,
    {
        args.push(BoundArg { expr: arg_exprs[i].clone(), expected: describe.parameter_type(i) });
        i += 1;
    }
    assert(bound_args_view(args@) =~= binding_args(texts_view(arg_exprs@), describe@));
    args
}

/// Selects the output of the binding for the requested shape.
pub fn select_output(record_type: RecordType, describe: &Describe) -> (r: Result<Output, Error>)
    ensures
        outcome(r) == output_shape(record_type@, describe@),
{
    if describe.all_void() {
        return Ok(Output::Void);
    }
    match record_type {
        RecordType::Generated => {
            let fields = columns_to_rust(describe);
            if any_wildcard(&fields) {
                Err(Error::WildcardInGeneratedRecord)
            } else {
                Ok(Output::GeneratedRecord { fields })
            }
        },
        RecordType::Given(out_ty) => {
            let fields = columns_to_rust(describe);
            Ok(Output::GivenRecord { out_ty, fields })
        },
        RecordType::Scalar => {
            if describe.columns.len() != 1 {
                Err(Error::ScalarColumnCount { found: describe.columns.len() })
            } else {
                let column = column_to_rust(&describe.columns[0]);
                Ok(Output::Scalar { column })
            }
        },
    }
}

/// Decides where a fresh description is to be saved.
pub fn persist_target(offline: bool, dir: Option<OfflineDir>) -> (r: Result<Option<String>, Error>)
    ensures
        match r {
            Ok(Some(path)) => persist_dir(offline, offline_dir_view(dir)) == Ok::<
                Option<Seq<char>>,
                ErrorView,
            >(Some(path@)),
            Ok(None) => persist_dir(offline, offline_dir_view(dir)) == Ok::<
                Option<Seq<char>>,
                ErrorView,
            >(None),
            Err(e) => persist_dir(offline, offline_dir_view(dir)) == Err::<
                Option<Seq<char>>,
                ErrorView,
            >(e@),
        },
{
    if offline {
        return Ok(None);
    }
    match dir {
        None => Ok(None),
        Some(d) => match d.state {
            DirState::Directory => Ok(Some(d.path)),
            DirState::NotDirectory => Err(Error::OfflineDirNotDirectory { dir: d.path }),
            DirState::Missing => Err(Error::OfflineDirMissing { dir: d.path }),
            DirState::Inaccessible { detail } => Err(
                Error::OfflineDirInaccessible { dir: d.path, detail },
            ),
        },
    }
}

/// Expands one query against its description: checks the number of
/// arguments, selects the output shape, and decides whether the description
/// is to be saved. `offline` says that the description came from the cache.
pub fn expand_with_data(
    input: QueryMacroInput,
    data: QueryData,
    offline: bool,
    offline_dir: Option<OfflineDir>,
) -> (r: Result<Expansion, Error>)
    ensures
        outcome(r) == expansion(input@, data@, offline, offline_dir_view(offline_dir)),
{
    let arg_count = input.arg_exprs.len();
    match check_arity(arg_count, &data.describe) {
        Err(e) => {
            return Err(e);
        },
        Ok(_) => {},
    }
    let args = quote_args(input.arg_exprs, &data.describe);
    let output = match select_output(input.record_type, &data.describe) {
        Err(e) => {
            return Err(e);
        },
        Ok(output) => output,
    };
    let binding = Binding { sql: input.sql, args, output };
    let target = match persist_target(offline, offline_dir) {
        Err(e) => {
            return Err(e);
        },
        Ok(target) => target,
    };
    let persist = match target {
        Some(dir) => {
            let file_name = data.file_name();
            Some(Persist { dir, file_name, data })
        },
        None => None,
    };
    Ok(Expansion { binding, persist })
}

/// The source of a query's description, with the driver selected for it by
/// its position among the registered ones.
#[derive(Clone, Debug)]
pub struct Dispatch {
    pub driver: usize,
    pub source: QueryDataSource,
}

pub ghost struct DispatchView {
    pub driver: int,
    pub source: QueryDataSourceView,
}

impl View for Dispatch {
    type V = DispatchView;

    open spec fn view(&self) -> DispatchView {
        DispatchView { driver: self.driver as int, source: self.source@ }
    }
}

/// The description of a query as the selected driver gets it: the cached
/// artifact, or what introspecting the live source gave.
#[derive(Clone, Debug)]
pub enum ResolvedMetadata {
    Cached(DynQueryData),
    Live(Describe),
}

pub ghost enum ResolvedMetadataView {
    Cached(QueryDataView),
    Live(DescribeView),
}

impl View for ResolvedMetadata {
    type V = ResolvedMetadataView;

    open spec fn view(&self) -> ResolvedMetadataView {
        match self {
            ResolvedMetadata::Cached(data) => ResolvedMetadataView::Cached(data@),
            ResolvedMetadata::Live(describe) => ResolvedMetadataView::Live(describe@),
        }
    }
}

/// Whether the build is online with a connection string that is no URL. Then
/// resolution fails, with the parser's own words.
pub open spec fn url_rejected(meta: MetadataView) -> bool {
    meta.live_url() matches Some(url) && url_scheme(url) is None
}

/// The cached source of the query `sql`: the artifact of the first place
/// that holds one, if it was made for this text. With no artifact anywhere
/// the failure says how to get one, by the mode of the build.
pub open spec fn cached_source(meta: MetadataView, lookup: CacheLookupView, sql: Seq<char>) -> Result<
    QueryDataSourceView,
    ErrorView,
> {
    match lookup.selected() {
        None => Err(ErrorView::CacheMiss { offline: meta.offline, url_var: meta.url_var }),
        Some(artifact) => match accept_artifact(artifact, sql) {
            Ok(accepted) => Ok(QueryDataSourceView::Cached(accepted)),
            Err(e) => Err(e),
        },
    }
}

/// The source of the query `sql`: live where the build is online and has a
/// connection string, which is taken to be a URL here; cached otherwise.
pub open spec fn resolved_source(meta: MetadataView, lookup: CacheLookupView, sql: Seq<char>) -> Result<
    QueryDataSourceView,
    ErrorView,
>
    recommends
        !url_rejected(meta),
{
    match meta.live_url() {
        Some(url) => Ok(
            QueryDataSourceView::Live { database_url: url, scheme: url_scheme(url).unwrap() },
        ),
        None => cached_source(meta, lookup, sql),
    }
}

/// The source of the query `sql` and the driver selected for it.
pub open spec fn dispatched(
    meta: MetadataView,
    lookup: CacheLookupView,
    sql: Seq<char>,
    drivers: Seq<QueryDriverView>,
) -> Result<DispatchView, ErrorView>
    recommends
        !url_rejected(meta),
{
    match resolved_source(meta, lookup, sql) {
        Err(e) => Err(e),
        Ok(source) => match source.dispatch(drivers) {
            Err(e) => Err(e),
            Ok(driver) => Ok(DispatchView { driver, source }),
        },
    }
}

/// The description that `driver` works on, with whether it came from the
/// cache.
pub open spec fn driver_data(
    driver: QueryDriverView,
    sql: Seq<char>,
    resolved: ResolvedMetadataView,
) -> Result<(QueryDataView, bool), ErrorView> {
    match resolved {
        ResolvedMetadataView::Cached(artifact) => match own_artifact(artifact, driver.db_name) {
            Ok(data) => Ok((data, true)),
            Err(e) => Err(e),
        },
        ResolvedMetadataView::Live(describe) => Ok(
            (
                QueryDataView {
                    db_name: driver.db_name,
                    query: sql,
                    describe,
                    hash: query_hash(sql),
                },
                false,
            ),
        ),
    }
}

/// The outcome of expanding `input` with `driver`.
pub open spec fn driver_expansion(
    driver: QueryDriverView,
    input: QueryMacroInputView,
    resolved: ResolvedMetadataView,
    dir: Option<OfflineDirView>,
) -> Result<ExpansionView, ErrorView> {
    match driver_data(driver, input.sql, resolved) {
        Err(e) => Err(e),
        Ok((data, offline)) => expansion(input, data, offline, dir),
    }
}

/// Decides where the description of the query `sql` comes from. `lookup`
/// holds what the search for the query's cache file found; it is not read
/// where the source is live.
pub fn resolve_source(meta: &Metadata, lookup: CacheLookup, sql: &str) -> (r: Result<
    QueryDataSource,
    Error,
>)
    ensures
        url_rejected(meta@) ==> (r matches Err(e) && e@ is InvalidUrl),
        !url_rejected(meta@) ==> outcome(r) == resolved_source(meta@, lookup@, sql@),
{
    if !meta.offline {
        match &meta.database_url {
            Some(url) => {
                return QueryDataSource::live(url.as_str());
            },
            None => {},
        }
    }
    match lookup.select() {
        None => Err(Error::CacheMiss { offline: meta.offline, url_var: meta.url_var.clone() }),
        Some(artifact) => match DynQueryData::from_data_file(artifact, sql) {
            Ok(accepted) => Ok(QueryDataSource::Cached(accepted)),
            Err(e) => Err(e),
        },
    }
}

/// Resolves the source of `input` and selects the driver that expands it:
/// the first of `drivers`, in order of registration, that answers to the
/// source.
///
/// Where the build is online and has a connection string the source is
/// live, and `probe` is not asked. Otherwise the cache is searched for the
/// file that is named after the query text alone: `probe` is asked for that
/// name only, place by place in the order of search, and no further than the
/// first place that holds it.
pub fn expand_input<F: Fn(CacheDir, String) -> Option<DynQueryData>>(
    input: &QueryMacroInput,
    meta: &Metadata,
    drivers: &Vec<QueryDriver>,
    probe: F,
) -> (r: Result<Dispatch, Error>)
    requires
        meta@.live_url() is None ==> may_search(probe, query_file_name(input@.sql)),
    ensures
        url_rejected(meta@) ==> (r matches Err(e) && e@ is InvalidUrl),
        meta@.live_url() is Some && !url_rejected(meta@) ==> outcome(r) == dispatched(
            meta@,
            CacheLookupView::nothing(),
            input@.sql,
            drivers_view(drivers@),
        ),
        meta@.live_url() is None ==> exists|lookup: CacheLookup|
            #[trigger] searched(probe, query_file_name(input@.sql), lookup) && outcome(r)
                == dispatched(meta@, lookup@, input@.sql, drivers_view(drivers@)),
        r matches Ok(d) ==> d.driver < drivers.len(),
{
    let lookup = if meta.is_live() {
        CacheLookup::empty()
    } else {
        let file_name = cache_file_name(input.sql.as_str());
        search(file_name.as_str(), probe)
    };
    let ghost found = lookup;
    let source = match resolve_source(meta, lookup, input.sql.as_str()) {
        Err(e) => {
            return Err(e);
        },
        Ok(source) => source,
    };
    let r = match source.select_driver(drivers) {
        Err(e) => Err(e),
        Ok(driver) => Ok(Dispatch { driver, source }),
    };
    proof {
        if meta@.live_url() is None {
            assert(searched(probe, query_file_name(input@.sql), found));
            assert(outcome(r) == dispatched(
                meta@,
                found@,
                input@.sql,
                drivers_view(drivers@),
            ));
        } else {
            assert(found@ == CacheLookupView::nothing());
        }
    }
    r
}

/// Expands `input` with the selected driver. A cached artifact must belong
/// to the driver; a live description is filed under the driver's name and
/// the key of the query text.
pub fn expand_with(
    driver: &QueryDriver,
    input: QueryMacroInput,
    resolved: ResolvedMetadata,
    offline_dir: Option<OfflineDir>,
) -> (r: Result<Expansion, Error>)
    ensures
        outcome(r) == driver_expansion(driver@, input@, resolved@, offline_dir_view(offline_dir)),
{
    let (data, offline) = match resolved {
        ResolvedMetadata::Cached(dyn_data) => {
            match QueryData::from_dyn_data(dyn_data, driver.db_name.as_str()) {
                Err(e) => {
                    return Err(e);
                },
                Ok(data) => (data, true),
            }
        },
        ResolvedMetadata::Live(describe) => {
            (QueryData::from_describe(input.sql.as_str(), describe, driver.db_name.as_str()), false)
        },
    };
    expand_with_data(input, data, offline, offline_dir)
}

/// Where the description declares a number of parameters and the call
/// site supplies another number of arguments, the expansion fails on the
/// arity, with both numbers, and there is no binding: whatever the columns,
/// the requested shape and the place to save in.
pub proof fn lemma_arity_mismatch_fails(
    driver: QueryDriverView,
    input: QueryMacroInputView,
    data: QueryDataView,
    offline: bool,
    dir: Option<OfflineDirView>,
)
    requires
        data.describe.parameter_count() matches Some(n) && n != input.arg_exprs.len(),
    ensures
        expansion(input, data, offline, dir) == Err::<ExpansionView, ErrorView>(
            ErrorView::ArityMismatch {
                expected: data.describe.parameter_count().unwrap(),
                found: input.arg_exprs.len(),
            },
        ),
        driver_expansion(driver, input, ResolvedMetadataView::Live(data.describe), dir) == Err::<
            ExpansionView,
            ErrorView,
        >(
            ErrorView::ArityMismatch {
                expected: data.describe.parameter_count().unwrap(),
                found: input.arg_exprs.len(),
            },
        ),
{
}

/// A binding, where there is one, takes exactly the arguments of the call
/// site, and a generated or given record has one field per
/// column, in column order.
pub proof fn lemma_binding_shape(
    input: QueryMacroInputView,
    data: QueryDataView,
    offline: bool,
    dir: Option<OfflineDirView>,
)
    ensures
        expansion(input, data, offline, dir) matches Ok(expanded) ==> ({
            let binding = expanded.binding;
            &&& binding.sql == input.sql
            &&& binding.args.len() == input.arg_exprs.len()
            &&& forall|i: int|
                0 <= i < binding.args.len() ==> (#[trigger] binding.args[i]).expr
                    == input.arg_exprs[i]
            &&& data.describe.parameter_count() matches Some(n) ==> n == input.arg_exprs.len()
            &&& binding.output is Void <==> data.describe.all_void()
            &&& match binding.output {
                OutputView::Void => true,
                OutputView::GeneratedRecord { fields } => input.record_type is Generated
                    && fields.len() == data.describe.columns.len() && !has_wildcard(fields)
                    && forall|i: int|
                    0 <= i < fields.len() ==> #[trigger] fields[i] == rust_column(
                        data.describe.columns[i],
                    ),
                OutputView::GivenRecord { out_ty, fields } => input.record_type
                    == RecordTypeView::Given(out_ty) && fields.len()
                    == data.describe.columns.len() && forall|i: int|
                    0 <= i < fields.len() ==> #[trigger] fields[i] == rust_column(
                        data.describe.columns[i],
                    ),
                OutputView::Scalar { column } => input.record_type is Scalar
                    && data.describe.columns.len() == 1 && column == rust_column(
                    data.describe.columns[0],
                ),
            }
        }),
{
}

/// A description is saved only when it did not come from the cache and a
/// directory is configured for it; and then only into a directory at that
/// path, under the name that the search looks for.
pub proof fn lemma_persist_only_online(
    input: QueryMacroInputView,
    data: QueryDataView,
    offline: bool,
    dir: Option<OfflineDirView>,
)
    ensures
        expansion(input, data, offline, dir) matches Ok(expanded) ==> match expanded.persist {
            Some(p) => {
                &&& !offline
                &&& p.data == data
                &&& p.file_name == file_name_of_hash(data.hash)
                &&& dir matches Some(d) && d.state is Directory && p.dir == d.path
            },
            None => offline || dir is None,
        },
{
}

} // verus!
