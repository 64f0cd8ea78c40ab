use vstd::prelude::*;
use vstd::seq_lib::{to_multiset_build, to_multiset_insert};

verus! {

/// A record that carries its own identity.
pub trait Keyed {
    spec fn key(&self) -> Seq<char>;

    fn key_str(&self) -> (r: &String)
        ensures
            r@ == self.key(),
    ;
}

/// A record that carries a caller-assigned ordering number.
pub trait Numbered {
    spec fn number(&self) -> int;

    fn number_of(&self) -> (r: i32)
        ensures
            r as int == self.number(),
    ;
}

/// Some record of `s` has identity `k`.
pub open spec fn has_key<T: Keyed>(s: Seq<T>, k: Seq<char>) -> bool {
    exists|i: int| 0 <= i < s.len() && #[trigger] s[i].key() == k
}

/// No two records of `s` share an identity.
pub open spec fn keys_unique<T: Keyed>(s: Seq<T>) -> bool {
    forall|i: int, j: int|
        0 <= i < s.len() && 0 <= j < s.len() && #[trigger] s[i].key() == #[trigger] s[j].key()
            ==> i == j
}

/// The position of a record with identity `k` (meaningful when there is one).
pub open spec fn key_index<T: Keyed>(s: Seq<T>, k: Seq<char>) -> int {
    choose|i: int| 0 <= i < s.len() && #[trigger] s[i].key() == k
}

/// The record with identity `k`, if any.
pub open spec fn find_key<T: Keyed>(s: Seq<T>, k: Seq<char>) -> Option<T> {
    if has_key(s, k) {
        Some(s[key_index(s, k)])
    } else {
        None
    }
}

/// Insert-or-replace: `x` takes the place of the record with its identity,
/// or is added at the end when there is none.
pub open spec fn upsert<T: Keyed>(s: Seq<T>, x: T) -> Seq<T> {
    if has_key(s, x.key()) {
        s.update(key_index(s, x.key()), x)
    } else {
        s.push(x)
    }
}

/// Ascending by ordering number.
pub open spec fn sorted_by_number<T: Numbered>(s: Seq<T>) -> bool {
    forall|i: int, j: int| 0 <= i <= j < s.len() ==> #[trigger] s[i].number() <= #[trigger] s[j].number()
}

/// After an upsert the identities stay unique, the new record is the one
/// found under its identity, and every other identity finds what it found before.
pub proof fn lemma_upsert_effect<T: Keyed>(s: Seq<T>, x: T)
    requires
        keys_unique(s),
    ensures
        keys_unique(upsert(s, x)),
        find_key(upsert(s, x), x.key()) == Some(x),
        forall|k: Seq<char>| k != x.key() ==> #[trigger] find_key(upsert(s, x), k) == find_key(s, k),
{
    let t = upsert(s, x);
    if has_key(s, x.key()) {
        let p = key_index(s, x.key());
        assert(t[p].key() == x.key());
    } else {
        assert(t[s.len() as int].key() == x.key());
    }
    assert(has_key(t, x.key()));
    assert forall|k: Seq<char>| k != x.key() implies #[trigger] find_key(t, k) == find_key(s, k) by {
        if has_key(s, k) {
            let i = key_index(s, k);
            assert(t[i].key() == k);
            assert(has_key(t, k));
        }
        if has_key(t, k) {
            let i = key_index(t, k);
            assert(s[i].key() == k);
        }
    }
}

/// Saving twice under one identity leaves exactly the latest record: the
/// result is that of saving only the second, no other record holds that
/// identity, and the second record is the one found under it.
pub proof fn lemma_upsert_latest_wins<T: Keyed>(s: Seq<T>, a: T, b: T)
    requires
        keys_unique(s),
        a.key() == b.key(),
    ensures
        upsert(upsert(s, a), b) == upsert(s, b),
        keys_unique(upsert(upsert(s, a), b)),
        find_key(upsert(upsert(s, a), b), b.key()) == Some(b),
{
    lemma_upsert_effect(s, a);
    lemma_upsert_effect(upsert(s, a), b);
    let s1 = upsert(s, a);
    if has_key(s, a.key()) {
        let p = key_index(s, a.key());
        assert(s1[p].key() == b.key());
        assert(has_key(s1, b.key()));
        let q = key_index(s1, b.key());
        assert(q == p);
        assert(upsert(s1, b) =~= upsert(s, b));
    } else {
        let p = s.len() as int;
        assert(s1[p].key() == b.key());
        let q = key_index(s1, b.key());
        assert(q == p);
        assert(upsert(s1, b) =~= upsert(s, b));
    }
}

/// The position of the record with identity `k`, if any.
pub fn position_of<T: Keyed>(v: &Vec<T>, k: &String) -> (r: Option<usize>)
    requires
        keys_unique(v@),
    ensures
        r is Some <==> has_key(v@, k@),
        r is Some ==> r->Some_0 as int == key_index(v@, k@),
{
    let mut i: usize = 0;
    while i < v.len()
        invariant
            i <= v.len(),
            keys_unique(v@),
            forall|j: int| 0 <= j < i ==> #[trigger] v@[j].key() != k@,
        decreases v.len() - i,
    {
        if *v[i].key_str() == *k {
            assert(v@[i as int].key() == k@);
            assert(has_key(v@, k@));
            let ghost p = key_index(v@, k@);
            assert(v@[p].key() == v@[i as int].key());
            assert(0 <= p < v@.len());
            return Some(i);
        }
        i += 1;
    }
    None
}

/// Insert-or-replace `x` by its identity.
pub fn upsert_into<T: Keyed>(v: &mut Vec<T>, x: T)
    requires
        keys_unique(old(v)@),
    ensures
        final(v)@ == upsert(old(v)@, x),
        keys_unique(final(v)@),
{
    proof {
        lemma_upsert_effect(v@, x);
    }
    let ghost s = v@;
    match position_of(v, x.key_str()) {
        Some(i) => {
            let _ = v.remove(i);
            v.insert(i, x);
            assert(v@ =~= s.update(i as int, x));
            assert(has_key(s, x.key()));
            assert(i as int == key_index(s, x.key()));
        },
        None => {
            v.push(x);
            assert(!has_key(s, x.key()));
        },
    }
}

/// Adds `x` to a sorted vector so that it stays sorted.
pub fn insert_sorted<T: Numbered>(v: &mut Vec<T>, x: T)
    requires
        sorted_by_number(old(v)@),
    ensures
        sorted_by_number(final(v)@),
        final(v)@.to_multiset() == old(v)@.to_multiset().insert(x),
{
    let n = x.number_of();
    let mut i: usize = 0;
    let mut placed = false;
    while i < v.len() && !placed
        invariant
            i <= v.len(),
            n as int == x.number(),
            sorted_by_number(v@),
            forall|j: int| 0 <= j < i ==> #[trigger] v@[j].number() <= x.number(),
            placed ==> i < v.len() && v@[i as int].number() > x.number(),
        decreases v.len() - i, (if placed { 0int } else { 1int }),
    {
        if v[i].number_of() > n {
            placed = true;
        } else {
            i += 1;
        }
    }
    let ghost s = v@;
    proof {
        to_multiset_insert(s, i as int, x);
    }
    v.insert(i, x);
    assert(v@ == s.insert(i as int, x));
    assert forall|a: int, b: int| 0 <= a <= b < v@.len() implies #[trigger] v@[a].number() <= #[trigger] v@[b].number() by {
        if a < i && b > i {
            assert(s[a].number() <= x.number());
            assert(s[i as int].number() <= s[b - 1].number());
        } else if a == i && b > i {
            assert(s[i as int].number() <= s[b - 1].number());
        } else if a > i {
            assert(s[a - 1].number() <= s[b - 1].number());
        }
    }
}

} // verus!
