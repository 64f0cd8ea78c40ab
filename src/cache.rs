use vstd::prelude::*;

use crate::models::CallsignLookupResult;
use crate::table::{find_key, keys_unique, lemma_upsert_effect, position_of, upsert_into, Keyed};

verus! {

#[verifier::external_type_specification]
#[verifier::external_body]
pub struct ExSystemTime(std::time::SystemTime);

/// Relies on std::time::SystemTime::now: the clock reading at the call.
/// Nothing is promised of its value.
#[verifier::external_body]
fn clock_now() -> (r: std::time::SystemTime) {
    std::time::SystemTime::now()
}

/// One cached directory record, under its normalized callsign.
pub struct CacheEntry {
    pub key: String,
    pub record: CallsignLookupResult,
    pub cached_at: std::time::SystemTime,
}

impl Keyed for CacheEntry {
    open spec fn key(&self) -> Seq<char> {
        self.key@
    }

    fn key_str(&self) -> (r: &String) {
        &self.key
    }
}

/// The record cached under `k` in `s`, if any.
pub open spec fn record_under(s: Seq<CacheEntry>, k: Seq<char>) -> Option<CallsignLookupResult> {
    match find_key(s, k) {
        Some(e) => Some(e.record),
        None => None,
    }
}

/// Last-known directory records by callsign. There is no expiry: a record
/// stays until another is written under the same callsign.
pub struct CallsignCache {
    entries: Vec<CacheEntry>,
}

impl CallsignCache {
    /// The stored entries.
    pub closed spec fn entries(&self) -> Seq<CacheEntry> {
        self.entries@
    }

    /// The record held under key `k`, if any.
    pub open spec fn cached(&self, k: Seq<char>) -> Option<CallsignLookupResult> {
        record_under(self.entries(), k)
    }

    /// At most one record per callsign.
    pub open spec fn wf(&self) -> bool {
        keys_unique(self.entries())
    }

    /// An empty cache.
    pub fn new() -> (r: CallsignCache)
        ensures
            r.wf(),
            forall|k: Seq<char>| r.cached(k) is None,
    {
        let r = CallsignCache { entries: Vec::new() };
        assert forall|k: Seq<char>| r.cached(k) is None by {
            assert(!crate::table::has_key(r.entries(), k));
        }
        r
    }

    /// Exact-match lookup of `callsign` among the keys.
    pub fn get_cached_callsign(&self, callsign: &String) -> (r: Option<CallsignLookupResult>)
        requires
            self.wf(),
        ensures
            r == self.cached(callsign@),
    {
        match position_of(&self.entries, callsign) {
            Some(i) => Some(self.entries[i].record.duplicate()),
            None => None,
        }
    }

    /// Writes `record` under `key`, replacing whatever was there, and stamps
    /// it with the current time. Every other key keeps its record.
    pub fn cache_under(&mut self, key: &String, record: CallsignLookupResult)
        requires
            old(self).wf(),
        ensures
            final(self).wf(),
            final(self).cached(key@) == Some(record),
            forall|k: Seq<char>| k != key@ ==> #[trigger] final(self).cached(k) == old(self).cached(k),
    {
        let cached_at = clock_now();
        let entry = CacheEntry { key: key.clone(), record, cached_at };
        proof {
            lemma_upsert_effect(self.entries@, entry);
        }
        upsert_into(&mut self.entries, entry);
    }

    /// Writes `record` under its own callsign, normalized to upper case.
    pub fn cache_callsign(&mut self, record: CallsignLookupResult)
        requires
            old(self).wf(),
        ensures
            final(self).wf(),
            final(self).cached(crate::lookup::upper_of(record.callsign@)) == Some(record),
            forall|k: Seq<char>|
                k != crate::lookup::upper_of(record.callsign@) ==> #[trigger] final(self).cached(k)
                    == old(self).cached(k),
    {
        let key = crate::lookup::to_upper(record.callsign.as_str());
        self.cache_under(&key, record);
    }
}

} // verus!
