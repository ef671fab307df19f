//! Query descriptions as they are cached: keyed by a digest of the query text
//! and tagged with the backend that owns them.

use crate::error::{outcome, Error, ErrorView};
use crate::query::describe::{Describe, DescribeView};
use crate::text::{digit_char, str_eq};
use sha2::Digest;
use vstd::prelude::*;
use vstd::utf8::encode_utf8;

verus! {

/// The SHA-256 digest of a run of bytes.
pub uninterp spec fn sha256(data: Seq<u8>) -> Seq<u8>;

/// The character of one hexadecimal digit, in lower case.
pub open spec fn hex_digit(n: nat) -> char
    recommends
        n < 16,
{
    if n < 10 {
        digit_char(n)
    } else if n == 10 {
        'a'
    } else if n == 11 {
        'b'
    } else if n == 12 {
        'c'
    } else if n == 13 {
        'd'
    } else if n == 14 {
        'e'
    } else {
        'f'
    }
}

/// The lower-case hexadecimal text of a run of bytes: two digits for each
/// byte, the high half first.
pub open spec fn hex_lower(data: Seq<u8>) -> Seq<char> {
    Seq::new(
        2 * data.len(),
        |i: int|
            if i % 2 == 0 {
                hex_digit((data[i / 2] / 16) as nat)
            } else {
                hex_digit((data[i / 2] % 16) as nat)
            },
    )
}

/// The key of a query text: the hexadecimal text of the digest of its UTF-8
/// bytes.
pub open spec fn query_hash(query: Seq<char>) -> Seq<char> {
    hex_lower(sha256(encode_utf8(query)))
}

/// The name of the file that caches a query's description.
pub open spec fn query_file_name(query: Seq<char>) -> Seq<char> {
    file_name_of_hash(query_hash(query))
}

/// The name of the cache file for a key.
pub open spec fn file_name_of_hash(hash: Seq<char>) -> Seq<char> {
    "query-"@ + hash + ".json"@
}

/// `sha2::Sha256::digest`: the SHA-256 digest of `data`. The digest is a
/// function of the bytes alone, and is 32 bytes long.
#[verifier::external_body]
fn sha256_digest(data: &[u8]) -> (out: Vec<u8>)
    ensures
        out@ == sha256(data@),
        out@.len() == 32,
{
    sha2::Sha256::digest(data).to_vec()
}

/// `hex::encode`: two lower-case hexadecimal digits for each byte of `data`,
/// in order, the high half of a byte first.
#[verifier::external_body]
fn hex_encode(data: &Vec<u8>) -> (out: String)
    ensures
        out@ == hex_lower(data@),
{
    hex::encode(data)
}

/// The key under which a query's description is cached.
pub fn hash_string(query: &str) -> (hash: String)
    ensures
        hash@ == query_hash(query@),
        hash@.len() == 64,
{
    let digest = sha256_digest(query.as_bytes());
    hex_encode(&digest)
}

/// The name of the cache file for a key.
pub fn file_name_for_hash(hash: &str) -> (name: String)
    ensures
        name@ == file_name_of_hash(hash@),
{
    let mut name = String::from_str("query-");
    name.append(hash);
    name.append(".json");
    name
}

/// The name of the file that caches the description of `query`. The same text
/// always gives the same name.
pub fn cache_file_name(query: &str) -> (name: String)
    ensures
        name@ == query_file_name(query@),
{
    let hash = hash_string(query);
    file_name_for_hash(hash.as_str())
}

/// A cached description as it was read, before it is tied to a driver.
#[derive(Clone, Debug)]
pub struct DynQueryData {
    pub db_name: String,
    pub query: String,
    pub describe: Describe,
    pub hash: String,
}

/// A query's description for the driver that owns it.
#[derive(Clone, Debug)]
pub struct QueryData {
    pub db_name: String,
    pub query: String,
    pub describe: Describe,
    pub hash: String,
}

/// The mathematical value of a [`DynQueryData`] or a [`QueryData`].
pub ghost struct QueryDataView {
    pub db_name: Seq<char>,
    pub query: Seq<char>,
    pub describe: DescribeView,
    pub hash: Seq<char>,
}

impl View for DynQueryData {
    type V = QueryDataView;

    open spec fn view(&self) -> QueryDataView {
        QueryDataView {
            db_name: self.db_name@,
            query: self.query@,
            describe: self.describe@,
            hash: self.hash@,
        }
    }
}

impl View for QueryData {
    type V = QueryDataView;

    open spec fn view(&self) -> QueryDataView {
        QueryDataView {
            db_name: self.db_name@,
            query: self.query@,
            describe: self.describe@,
            hash: self.hash@,
        }
    }
}

/// An artifact read from the cache file of `query` is taken only if it was
/// made for that very text.
pub open spec fn accept_artifact(artifact: QueryDataView, query: Seq<char>) -> Result<
    QueryDataView,
    ErrorView,
> {
    if artifact.query == query {
        Ok(artifact)
    } else {
        Err(ErrorView::HashCollision)
    }
}

/// An artifact goes to the driver named `driver_name` only if that backend
/// owns it.
pub open spec fn own_artifact(artifact: QueryDataView, driver_name: Seq<char>) -> Result<
    QueryDataView,
    ErrorView,
> {
    if artifact.db_name == driver_name {
        Ok(artifact)
    } else {
        Err(ErrorView::DriverMismatch { expected: driver_name, found: artifact.db_name })
    }
}

impl DynQueryData {
    /// Accepts an artifact read from the cache file of `query`. Two texts may
    /// share a key: the artifact is accepted only if it was made for this very
    /// text.
    pub fn from_data_file(artifact: DynQueryData, query: &str) -> (r: Result<DynQueryData, Error>)
        ensures
            outcome(r) == accept_artifact(artifact@, query@),
    {
        if str_eq(artifact.query.as_str(), query) {
            Ok(artifact)
        } else {
            Err(Error::HashCollision)
        }
    }
}

impl QueryData {
    /// Ties a cached description to the driver named `driver_name`, which must
    /// be the backend that owns it.
    pub fn from_dyn_data(dyn_data: DynQueryData, driver_name: &str) -> (r: Result<QueryData, Error>)
        ensures
            outcome(r) == own_artifact(dyn_data@, driver_name@),
    {
        if str_eq(dyn_data.db_name.as_str(), driver_name) {
            Ok(
                QueryData {
                    db_name: dyn_data.db_name,
                    query: dyn_data.query,
                    describe: dyn_data.describe,
                    hash: dyn_data.hash,
                },
            )
        } else {
            Err(
                Error::DriverMismatch {
                    expected: String::from_str(driver_name),
                    found: dyn_data.db_name,
                },
            )
        }
    }

    /// The description that the backend named `driver_name` gave of `query`,
    /// under the key of that text.
    pub fn from_describe(query: &str, describe: Describe, driver_name: &str) -> (data: QueryData)
        ensures
            data@ == (QueryDataView {
                db_name: driver_name@,
                query: query@,
                describe: describe@,
                hash: query_hash(query@),
            }),
    {
        QueryData {
            db_name: String::from_str(driver_name),
            query: String::from_str(query),
            describe,
            hash: hash_string(query),
        }
    }

    /// The name of the file this description is saved in.
    pub fn file_name(&self) -> (name: String)
        ensures
            name@ == file_name_of_hash(self@.hash),
    {
        file_name_for_hash(self.hash.as_str())
    }
}

/// Two runs of bytes with the same hexadecimal text are the same.
pub proof fn lemma_hex_lower_injective(a: Seq<u8>, b: Seq<u8>)
    requires
        hex_lower(a) == hex_lower(b),
    ensures
        a == b,
{
    assert(hex_lower(a).len() == 2 * a.len());
    assert(hex_lower(b).len() == 2 * b.len());
    assert(a.len() == b.len());
    assert forall|k: int| 0 <= k < a.len() implies a[k] == b[k] by {
        let hi = 2 * k;
        let lo = 2 * k + 1;
        assert(hi / 2 == k && hi % 2 == 0 && lo / 2 == k && lo % 2 == 1);
        assert(0 <= hi < lo < 2 * a.len());
        assert(hex_lower(a)[hi] == hex_digit((a[k] / 16) as nat));
        assert(hex_lower(b)[hi] == hex_digit((b[k] / 16) as nat));
        assert(hex_lower(a)[lo] == hex_digit((a[k] % 16) as nat));
        assert(hex_lower(b)[lo] == hex_digit((b[k] % 16) as nat));
        assert(hex_digit((a[k] / 16) as nat) == hex_digit((b[k] / 16) as nat));
        assert(hex_digit((a[k] % 16) as nat) == hex_digit((b[k] % 16) as nat));
        assert(a[k] / 16 == b[k] / 16);
        assert(a[k] % 16 == b[k] % 16);
    }
    assert(a =~= b);
}

/// The name of a query's cache file depends on the query text alone, and on
/// nothing of it but the digest of its bytes: two texts get the same name
/// exactly when they have the same digest. In particular the same text always
/// gets the same name.
pub proof fn lemma_file_name_by_digest(a: Seq<char>, b: Seq<char>)
    ensures
        a == b ==> query_file_name(a) == query_file_name(b),
        query_file_name(a) == query_file_name(b) <==> sha256(encode_utf8(a)) == sha256(
            encode_utf8(b),
        ),
{
    reveal_strlit("query-");
    reveal_strlit(".json");
    let ha = query_hash(a);
    let hb = query_hash(b);
    if query_file_name(a) == query_file_name(b) {
        assert(file_name_of_hash(ha).len() == 6 + ha.len() + 5);
        assert(file_name_of_hash(hb).len() == 6 + hb.len() + 5);
        assert forall|k: int| 0 <= k < ha.len() implies ha[k] == hb[k] by {
            assert(file_name_of_hash(ha)[6 + k] == ha[k]);
            assert(file_name_of_hash(hb)[6 + k] == hb[k]);
        }
        assert(ha =~= hb);
        lemma_hex_lower_injective(sha256(encode_utf8(a)), sha256(encode_utf8(b)));
    }
}

} // verus!
