use vstd::prelude::*;
use vstd::string::*;

use crate::cache::CallsignCache;
use crate::models::CallsignLookupResult;

verus! {

/// The upper-case form of a string, as std's `str::to_uppercase` gives it.
pub uninterp spec fn upper_of(s: Seq<char>) -> Seq<char>;

/// Relies on str::to_uppercase: the result depends on the characters alone.
#[verifier::external_body]
pub(crate) fn to_upper(s: &str) -> (r: String)
    ensures
        r@ == upper_of(s@),
{
    s.to_uppercase()
}

/// A station record as the callsign directory sends it; every field may be absent.
#[derive(Clone, Debug, Default, PartialEq, Eq)]
pub struct DirectoryRecord {
    pub call: Option<String>,
    pub fname: Option<String>,
    pub name: Option<String>,
    pub addr1: Option<String>,
    pub addr2: Option<String>,
    pub state: Option<String>,
    pub country: Option<String>,
    pub grid: Option<String>,
}

/// The characters of an optional string; absent reads as empty.
pub open spec fn or_empty(o: Option<String>) -> Seq<char> {
    match o {
        Some(s) => s@,
        None => Seq::empty(),
    }
}

/// Given name and surname joined by one space when both are there, else
/// whichever is there, else empty.
pub open spec fn display_name(fname: Option<String>, lname: Option<String>) -> Seq<char> {
    match (fname, lname) {
        (Some(f), Some(l)) => f@ + seq![' '] + l@,
        (Some(f), None) => f@,
        (None, Some(l)) => l@,
        (None, None) => Seq::empty(),
    }
}

/// The record that a directory answer gives for a query whose upper-case
/// form is `upper_query`.
pub open spec fn is_lookup_result_of(
    r: CallsignLookupResult,
    upper_query: Seq<char>,
    rec: DirectoryRecord,
) -> bool {
    &&& r.callsign@ == (match rec.call {
        Some(c) => c@,
        None => upper_query,
    })
    &&& r.name@ == display_name(rec.fname, rec.name)
    &&& r.city@ == or_empty(rec.addr2)
    &&& r.state@ == or_empty(rec.state)
    &&& r.country@ == (match rec.country {
        Some(c) => c@,
        None => "USA"@,
    })
    &&& r.grid@ == or_empty(rec.grid)
}

fn take_or_empty(o: Option<String>) -> (r: String)
    ensures
        r@ == or_empty(o),
{
    match o {
        Some(s) => s,
        None => String::new(),
    }
}

/// The display name of a station from its given name and surname.
pub fn compose_display_name(fname: &Option<String>, lname: &Option<String>) -> (r: String)
    ensures
        r@ == display_name(*fname, *lname),
{
    match (fname, lname) {
        (Some(f), Some(l)) => {
            let mut r = f.clone();
            proof {
                reveal_strlit(" ");
            }
            r.append(" ");
            r.append(l.as_str());
            r
        },
        (Some(f), None) => f.clone(),
        (None, Some(l)) => l.clone(),
        (None, None) => String::new(),
    }
}

/// Maps a directory record to the result shape, for a query already in upper case.
pub fn build_lookup_result(upper_query: String, rec: DirectoryRecord) -> (r: CallsignLookupResult)
    ensures
        is_lookup_result_of(r, upper_query@, rec),
{
    let name = compose_display_name(&rec.fname, &rec.name);
    let callsign = match rec.call {
        Some(c) => c,
        None => upper_query,
    };
    let country = match rec.country {
        Some(c) => c,
        None => String::from_str("USA"),
    };
    CallsignLookupResult {
        callsign,
        name,
        city: take_or_empty(rec.addr2),
        state: take_or_empty(rec.state),
        country,
        grid: take_or_empty(rec.grid),
    }
}

/// The result for query `callsign` from the directory's answer: none when
/// the answer holds no station record.
pub fn to_lookup_result(callsign: &str, rec: Option<DirectoryRecord>) -> (r: Option<CallsignLookupResult>)
    ensures
        r is Some <==> rec is Some,
        r is Some ==> is_lookup_result_of(r->Some_0, upper_of(callsign@), rec->Some_0),
{
    match rec {
        Some(rec) => Some(build_lookup_result(to_upper(callsign), rec)),
        None => None,
    }
}

/// The directory address for a callsign: `<base>/v1/<CALLSIGN>/json/netctl`,
/// the callsign in upper case.
pub fn lookup_url(base: &str, callsign: &str) -> (r: String)
    ensures
        r@ == base@ + "/v1/"@ + upper_of(callsign@) + "/json/netctl"@,
{
    let upper = to_upper(callsign);
    let mut url = String::from_str(base);
    url.append("/v1/");
    url.append(upper.as_str());
    url.append("/json/netctl");
    url
}

/// What to do first for a lookup.
#[derive(Clone, Debug, PartialEq, Eq)]
pub enum LookupStep {
    /// The cache holds the callsign: this is the answer.
    Cached(CallsignLookupResult),
    /// The cache does not: ask the directory for this (upper-case) callsign.
    Fetch(String),
}

/// First step of a lookup: the cache is asked under the upper-case callsign
/// and, when it has a record, that record is the answer.
pub fn lookup_start(cache: &CallsignCache, callsign: &str) -> (r: LookupStep)
    requires
        cache.wf(),
    ensures
        match cache_answer(*cache, callsign@) {
            Some(rec) => r == LookupStep::Cached(rec),
            None => r is Fetch && r->Fetch_0@ == upper_of(callsign@),
        },
{
    let key = to_upper(callsign);
    match cache.get_cached_callsign(&key) {
        Some(rec) => LookupStep::Cached(rec),
        None => LookupStep::Fetch(key),
    }
}

/// The answer that the cache gives to a lookup of `callsign`, if any.
pub open spec fn cache_answer(cache: CallsignCache, callsign: Seq<char>) -> Option<CallsignLookupResult> {
    cache.cached(upper_of(callsign))
}

/// How the cache after the last step of a lookup relates to the cache
/// before it: a fetched result is held under `key`, and nothing else changes.
pub open spec fn written_back(
    before: CallsignCache,
    after: CallsignCache,
    key: Seq<char>,
    fetched: Option<CallsignLookupResult>,
) -> bool {
    &&& after.wf()
    &&& (fetched is None ==> after == before)
    &&& (fetched is Some ==> after.cached(key) == fetched)
    &&& forall|k: Seq<char>| k != key ==> #[trigger] after.cached(k) == before.cached(k)
}

/// Last step of a lookup that went to the directory: a result is written
/// back under `key` and returned; no result leaves the cache as it was and
/// is no error.
pub fn lookup_finish(
    cache: &mut CallsignCache,
    key: &String,
    fetched: Option<CallsignLookupResult>,
) -> (r: Option<CallsignLookupResult>)
    requires
        old(cache).wf(),
    ensures
        r == fetched,
        written_back(*old(cache), *final(cache), key@, fetched),
{
    match fetched {
        Some(rec) => {
            let out = rec.duplicate();
            cache.cache_under(key, rec);
            Some(out)
        },
        None => None,
    }
}

/// Once a lookup of `callsign` that missed the cache has written the
/// directory's result back under the key it was fetched by, the next lookup
/// of the same callsign, in any letter case, is answered by the cache with
/// that result, and the answers for other callsigns are as they were.
pub proof fn lemma_write_back_then_hit(
    before: CallsignCache,
    after: CallsignCache,
    callsign: Seq<char>,
    other: Seq<char>,
    fetched: CallsignLookupResult,
)
    requires
        written_back(before, after, upper_of(callsign), Some(fetched)),
    ensures
        cache_answer(after, callsign) == Some(fetched),
        upper_of(other) == upper_of(callsign) ==> cache_answer(after, other) == Some(fetched),
        upper_of(other) != upper_of(callsign) ==> cache_answer(after, other) == cache_answer(before, other),
{
}

} // verus!
