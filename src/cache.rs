use vstd::prelude::*;

verus! {

/// The key under which the response cache stores a page: the method, a colon
/// and the URL, with no other normalisation.
pub open spec fn cache_key_of(url: Seq<char>) -> Seq<char> {
    "GET:"@ + url
}

/// The cache key of a URL.
pub fn derive_key(url: &str) -> (r: String)
    ensures
        r@ == cache_key_of(url@),
{
    "GET:".to_string().concat(url)
}

/// Distinct URLs never share a cache key.
pub proof fn cache_key_injective(a: Seq<char>, b: Seq<char>)
    requires
        a != b,
    ensures
        cache_key_of(a) != cache_key_of(b),
{
    reveal_strlit("GET:");
    if cache_key_of(a) == cache_key_of(b) {
        assert(cache_key_of(a).subrange(4, cache_key_of(a).len() as int) =~= a);
        assert(cache_key_of(b).subrange(4, cache_key_of(b).len() as int) =~= b);
    }
}

/// What the race between a cache read and its deadline produced.
#[derive(Clone, Debug)]
pub enum StoreReply {
    /// The store held a response, with this body.
    Found(Vec<u8>),
    /// The store answered that it holds nothing under the key.
    NotFound,
    /// The store answered with an error.
    Failed,
    /// The deadline passed before the store answered.
    TimedOut,
}

pub ghost enum ReplyModel {
    Found(Seq<u8>),
    NotFound,
    Failed,
    TimedOut,
}

impl View for StoreReply {
    type V = ReplyModel;

    open spec fn view(&self) -> ReplyModel {
        match self {
            StoreReply::Found(b) => ReplyModel::Found(b@),
            StoreReply::NotFound => ReplyModel::NotFound,
            StoreReply::Failed => ReplyModel::Failed,
            StoreReply::TimedOut => ReplyModel::TimedOut,
        }
    }
}

/// The result of a cache lookup as the pipeline sees it.
#[derive(Clone, Debug)]
pub enum CacheLookupResult {
    Hit(Vec<u8>),
    Miss,
    Error,
}

pub ghost enum LookupModel {
    Hit(Seq<u8>),
    Miss,
    Error,
}

impl View for CacheLookupResult {
    type V = LookupModel;

    open spec fn view(&self) -> LookupModel {
        match self {
            CacheLookupResult::Hit(b) => LookupModel::Hit(b@),
            CacheLookupResult::Miss => LookupModel::Miss,
            CacheLookupResult::Error => LookupModel::Error,
        }
    }
}

/// A timeout counts as an error of the store.
pub open spec fn resolve_model(reply: ReplyModel) -> LookupModel {
    match reply {
        ReplyModel::Found(b) => LookupModel::Hit(b),
        ReplyModel::NotFound => LookupModel::Miss,
        ReplyModel::Failed => LookupModel::Error,
        ReplyModel::TimedOut => LookupModel::Error,
    }
}

/// Turns what the store race produced into a lookup result.
pub fn resolve(reply: StoreReply) -> (r: CacheLookupResult)
    ensures
        r@ == resolve_model(reply@),
{
    match reply {
        StoreReply::Found(b) => CacheLookupResult::Hit(b),
        StoreReply::NotFound => CacheLookupResult::Miss,
        StoreReply::Failed => CacheLookupResult::Error,
        StoreReply::TimedOut => CacheLookupResult::Error,
    }
}

} // verus!
