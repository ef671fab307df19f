//! The mode of a build and the places where cached descriptions are looked for.

use crate::query::data::{DynQueryData, QueryDataView};
use vstd::prelude::*;

verus! {

/// The mode of the build, as its environment sets it.
#[derive(Clone, Debug)]
pub struct Metadata {
    /// Whether the build may not reach a live data source.
    pub offline: bool,
    /// The connection string of the live data source, where one is set.
    pub database_url: Option<String>,
    /// The name of the variable that would hold the connection string.
    pub url_var: String,
}

pub ghost struct MetadataView {
    pub offline: bool,
    pub database_url: Option<Seq<char>>,
    pub url_var: Seq<char>,
}

impl View for Metadata {
    type V = MetadataView;

    open spec fn view(&self) -> MetadataView {
        MetadataView {
            offline: self.offline,
            database_url: match self.database_url {
                Some(url) => Some(url@),
                None => None,
            },
            url_var: self.url_var@,
        }
    }
}

impl MetadataView {
    /// The connection string to introspect, where the build is online and has
    /// one.
    pub open spec fn live_url(self) -> Option<Seq<char>> {
        if self.offline {
            None
        } else {
            self.database_url
        }
    }
}

impl Metadata {
    /// Whether the build is online and has a connection string.
    pub fn is_live(&self) -> (b: bool)
        ensures
            b == self@.live_url() is Some,
    {
        !self.offline && self.database_url.is_some()
    }

    pub fn url_var(&self) -> (name: &str)
        ensures
            name@ == self@.url_var,
    {
        self.url_var.as_str()
    }
}

/// A place where the cache file of a query may lie, in the order of search.
#[derive(Clone, Copy, Debug, PartialEq, Eq, Structural)]
pub enum CacheDir {
    /// The directory that the environment names explicitly.
    Override,
    /// The cache directory of the build unit.
    Local,
    /// The cache directory at the root of the enclosing workspace.
    Workspace,
}

impl CacheDir {
    /// The rank of a place in the search: a lower rank is searched first.
    pub open spec fn rank(self) -> int {
        match self {
            CacheDir::Override => 0,
            CacheDir::Local => 1,
            CacheDir::Workspace => 2,
        }
    }
}

/// What the search found: for each place the artifact read from the query's
/// cache file there, or nothing where the place is not set or holds no such
/// file. Only the first place that holds one is ever read, so a search that
/// stops there may leave the later places empty.
#[derive(Clone, Debug)]
pub struct CacheLookup {
    pub override_dir: Option<DynQueryData>,
    pub local: Option<DynQueryData>,
    pub workspace: Option<DynQueryData>,
}

pub ghost struct CacheLookupView {
    pub override_dir: Option<QueryDataView>,
    pub local: Option<QueryDataView>,
    pub workspace: Option<QueryDataView>,
}

pub open spec fn artifact_view(slot: Option<DynQueryData>) -> Option<QueryDataView> {
    match slot {
        Some(data) => Some(data@),
        None => None,
    }
}

impl View for CacheLookup {
    type V = CacheLookupView;

    open spec fn view(&self) -> CacheLookupView {
        CacheLookupView {
            override_dir: artifact_view(self.override_dir),
            local: artifact_view(self.local),
            workspace: artifact_view(self.workspace),
        }
    }
}

impl CacheLookupView {
    /// A search that found nothing anywhere.
    pub open spec fn nothing() -> CacheLookupView {
        CacheLookupView { override_dir: None, local: None, workspace: None }
    }

    /// What a place holds.
    pub open spec fn at(self, dir: CacheDir) -> Option<QueryDataView> {
        match dir {
            CacheDir::Override => self.override_dir,
            CacheDir::Local => self.local,
            CacheDir::Workspace => self.workspace,
        }
    }

    /// The place whose artifact is used: the first in the order of search
    /// that holds one.
    pub open spec fn winner(self) -> Option<CacheDir> {
        if self.override_dir is Some {
            Some(CacheDir::Override)
        } else if self.local is Some {
            Some(CacheDir::Local)
        } else if self.workspace is Some {
            Some(CacheDir::Workspace)
        } else {
            None
        }
    }

    /// The artifact that is used.
    pub open spec fn selected(self) -> Option<QueryDataView> {
        match self.winner() {
            Some(dir) => self.at(dir),
            None => None,
        }
    }
}

impl CacheLookup {
    /// A search that found nothing anywhere.
    pub fn empty() -> (lookup: CacheLookup)
        ensures
            lookup.override_dir is None,
            lookup.local is None,
            lookup.workspace is None,
    {
        CacheLookup { override_dir: None, local: None, workspace: None }
    }

    /// The place whose artifact is used.
    pub fn winner(&self) -> (dir: Option<CacheDir>)
        ensures
            dir == self@.winner(),
    {
        if self.override_dir.is_some() {
            Some(CacheDir::Override)
        } else if self.local.is_some() {
            Some(CacheDir::Local)
        } else if self.workspace.is_some() {
            Some(CacheDir::Workspace)
        } else {
            None
        }
    }

    /// Takes the artifact that is used: that of the first place, in the order
    /// of search, that holds one.
    pub fn select(self) -> (data: Option<DynQueryData>)
        ensures
            artifact_view(data) == self@.selected(),
    {
        if self.override_dir.is_some() {
            self.override_dir
        } else if self.local.is_some() {
            self.local
        } else {
            self.workspace
        }
    }
}

/// Whether `probe` may be asked for the file `name` in the places of the
/// search, in their order and no further than the first that holds it: in
/// the first place always, in each later one only where every place before
/// it held nothing.
pub open spec fn may_search<F: Fn(CacheDir, String) -> Option<DynQueryData>>(
    probe: F,
    name: Seq<char>,
) -> bool {
    &&& forall|n: String| n@ == name ==> #[trigger] probe.requires((CacheDir::Override, n))
    &&& forall|n: String, m: String|
        n@ == name && m@ == name && #[trigger] probe.ensures((CacheDir::Override, n), None)
            ==> #[trigger] probe.requires((CacheDir::Local, m))
    &&& forall|n: String, m: String, k: String|
        n@ == name && m@ == name && k@ == name && #[trigger] probe.ensures(
            (CacheDir::Override, n),
            None,
        ) && #[trigger] probe.ensures((CacheDir::Local, m), None) ==> #[trigger] probe.requires(
            (CacheDir::Workspace, k),
        )
}

/// Whether `answer` is what `probe` gave for the file `name` in `dir`.
pub open spec fn probed<F: Fn(CacheDir, String) -> Option<DynQueryData>>(
    probe: F,
    dir: CacheDir,
    name: Seq<char>,
    answer: Option<DynQueryData>,
) -> bool {
    exists|n: String| n@ == name && #[trigger] probe.ensures((dir, n), answer)
}

/// Whether `lookup` is what a search for the file `name` through `probe`
/// finds: each place up to the first that holds the file holds what `probe`
/// gave for it, and the places after that one were not asked and hold
/// nothing.
pub open spec fn searched<F: Fn(CacheDir, String) -> Option<DynQueryData>>(
    probe: F,
    name: Seq<char>,
    lookup: CacheLookup,
) -> bool {
    &&& probed(probe, CacheDir::Override, name, lookup.override_dir)
    &&& if lookup.override_dir is Some {
        lookup.local is None && lookup.workspace is None
    } else {
        &&& probed(probe, CacheDir::Local, name, lookup.local)
        &&& if lookup.local is Some {
            lookup.workspace is None
        } else {
            probed(probe, CacheDir::Workspace, name, lookup.workspace)
        }
    }
}

/// Searches the places for the file `file_name`, in their order, asking
/// `probe` for the artifact that a place holds under that name. The search
/// stops at the first place that holds one.
pub fn search<F: Fn(CacheDir, String) -> Option<DynQueryData>>(file_name: &str, probe: F) -> (lookup:
    CacheLookup)
    requires
        may_search(probe, file_name@),
    ensures
        searched(probe, file_name@, lookup),
{
    let mut lookup = CacheLookup::empty();
    let in_override = probe(CacheDir::Override, String::from_str(file_name));
    if in_override.is_some() {
        lookup.override_dir = in_override;
        return lookup;
    }
    let in_local = probe(CacheDir::Local, String::from_str(file_name));
    if in_local.is_some() {
        lookup.local = in_local;
        return lookup;
    }
    lookup.workspace = probe(CacheDir::Workspace, String::from_str(file_name));
    lookup
}

/// The search is by strict priority: the artifact of a place is used exactly
/// when that place holds one and no place before it does. So an artifact in
/// the override directory is used whatever the other places hold.
pub proof fn lemma_search_priority(lookup: CacheLookupView, dir: CacheDir)
    ensures
        lookup.winner() == Some(dir) <==> (lookup.at(dir) is Some && forall|earlier: CacheDir|
            earlier.rank() < dir.rank() ==> (#[trigger] lookup.at(earlier)) is None),
        lookup.override_dir is Some ==> lookup.selected() == lookup.override_dir,
        lookup.winner() is None <==> (forall|any: CacheDir| (#[trigger] lookup.at(any)) is None),
{
    if lookup.at(dir) is Some && (forall|earlier: CacheDir|
        earlier.rank() < dir.rank() ==> (#[trigger] lookup.at(earlier)) is None) {
        if dir.rank() > 0 {
            assert(lookup.at(CacheDir::Override) is None);
        }
        if dir.rank() > 1 {
            assert(lookup.at(CacheDir::Local) is None);
        }
    }
    if lookup.winner() is None {
        assert forall|any: CacheDir| (#[trigger] lookup.at(any)) is None by {
            match any {
                CacheDir::Override => {},
                CacheDir::Local => {},
                CacheDir::Workspace => {},
            }
        }
    } else {
        assert(lookup.at(lookup.winner().unwrap()) is Some);
    }
}

} // verus!
