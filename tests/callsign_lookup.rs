use netctl::lookup::{
    build_lookup_result, compose_display_name, lookup_finish, lookup_start, lookup_url,
    to_lookup_result,
};
use netctl::{CallsignCache, CallsignLookupResult, DirectoryRecord, LookupStep};

struct StubClient {
    answer: Option<CallsignLookupResult>,
    calls: usize,
}

impl StubClient {
    fn fetch(&mut self, _callsign: &str) -> Option<CallsignLookupResult> {
        self.calls += 1;
        self.answer.clone()
    }
}

fn lookup(cache: &mut CallsignCache, client: &mut StubClient, callsign: &str) -> Option<CallsignLookupResult> {
    match lookup_start(cache, callsign) {
        LookupStep::Cached(rec) => Some(rec),
        LookupStep::Fetch(key) => {
            let fetched = client.fetch(&key);
            lookup_finish(cache, &key, fetched)
        }
    }
}

fn result(callsign: &str, name: &str) -> CallsignLookupResult {
    CallsignLookupResult {
        callsign: callsign.to_string(),
        name: name.to_string(),
        city: "Newington".to_string(),
        state: "CT".to_string(),
        country: "USA".to_string(),
        grid: "FN31".to_string(),
    }
}

fn s(v: &str) -> Option<String> {
    Some(v.to_string())
}

#[test]
fn cache_hit_skips_the_client() {
    let mut cache = CallsignCache::new();
    cache.cache_callsign(result("W1AW", "Test Operator"));
    let mut client = StubClient { answer: Some(result("W1AW", "Other")), calls: 0 };
    let r = lookup(&mut cache, &mut client, "w1aw");
    assert_eq!(r, Some(result("W1AW", "Test Operator")));
    assert_eq!(client.calls, 0);
}

#[test]
fn miss_fetches_and_writes_back() {
    let mut cache = CallsignCache::new();
    let mut client = StubClient { answer: Some(result("K1ABC", "Fixed")), calls: 0 };
    let first = lookup(&mut cache, &mut client, "K1ABC");
    assert_eq!(first, Some(result("K1ABC", "Fixed")));
    assert_eq!(client.calls, 1);
    assert_eq!(cache.get_cached_callsign(&"K1ABC".to_string()), Some(result("K1ABC", "Fixed")));
    let second = lookup(&mut cache, &mut client, "K1ABC");
    assert_eq!(second, Some(result("K1ABC", "Fixed")));
    assert_eq!(client.calls, 1);
}

#[test]
fn failed_client_gives_absent() {
    let mut cache = CallsignCache::new();
    let mut client = StubClient { answer: None, calls: 0 };
    assert_eq!(lookup(&mut cache, &mut client, "N0NE"), None);
    assert_eq!(client.calls, 1);
    assert_eq!(cache.get_cached_callsign(&"N0NE".to_string()), None);
}

#[test]
fn lookup_start_asks_for_upper_case() {
    let cache = CallsignCache::new();
    assert_eq!(lookup_start(&cache, "k1abc"), LookupStep::Fetch("K1ABC".to_string()));
}

#[test]
fn cache_overwrite_is_unconditional() {
    let mut cache = CallsignCache::new();
    cache.cache_callsign(result("W1AW", "Old"));
    cache.cache_callsign(result("w1aw", "New"));
    assert_eq!(cache.get_cached_callsign(&"W1AW".to_string()), Some(result("w1aw", "New")));
    assert_eq!(cache.get_cached_callsign(&"w1aw".to_string()), None);
}

#[test]
fn name_from_given_name_only() {
    assert_eq!(compose_display_name(&s("Hiram"), &None), "Hiram");
}

#[test]
fn name_from_surname_only() {
    assert_eq!(compose_display_name(&None, &s("Maxim")), "Maxim");
}

#[test]
fn name_from_neither() {
    assert_eq!(compose_display_name(&None, &None), "");
}

#[test]
fn name_from_both() {
    assert_eq!(compose_display_name(&s("Hiram"), &s("Maxim")), "Hiram Maxim");
}

#[test]
fn directory_record_mapping_with_defaults() {
    let rec = DirectoryRecord { fname: s("Ann"), addr1: s("1 Main St"), ..Default::default() };
    let r = build_lookup_result("K1ABC".to_string(), rec);
    assert_eq!(
        r,
        CallsignLookupResult {
            callsign: "K1ABC".to_string(),
            name: "Ann".to_string(),
            city: String::new(),
            state: String::new(),
            country: "USA".to_string(),
            grid: String::new(),
        }
    );
}

#[test]
fn directory_record_mapping_with_every_field() {
    let rec = DirectoryRecord {
        call: s("W1AW"),
        fname: s("Hiram"),
        name: s("Maxim"),
        addr1: s("225 Main St"),
        addr2: s("Newington"),
        state: s("CT"),
        country: s("United States"),
        grid: s("FN31pr"),
    };
    let r = build_lookup_result("IGNORED".to_string(), rec);
    assert_eq!(r.callsign, "W1AW");
    assert_eq!(r.name, "Hiram Maxim");
    assert_eq!(r.city, "Newington");
    assert_eq!(r.state, "CT");
    assert_eq!(r.country, "United States");
    assert_eq!(r.grid, "FN31pr");
}

#[test]
fn missing_call_defaults_to_upper_case_query() {
    let r = to_lookup_result("k1abc", Some(DirectoryRecord::default())).unwrap();
    assert_eq!(r.callsign, "K1ABC");
    assert_eq!(r.name, "");
}

#[test]
fn no_station_record_gives_absent() {
    assert_eq!(to_lookup_result("k1abc", None), None);
}

#[test]
fn url_uses_upper_case_callsign() {
    assert_eq!(
        lookup_url("https://api.hamdb.org", "w1aw"),
        "https://api.hamdb.org/v1/W1AW/json/netctl"
    );
}
