//! The two expiring caches, as verified association lists.
//!
//! Both caches view their rows as a `Map` from key characters to values.
//! Rows are unique by key; lookups, inserts, purges and the whole-cache
//! invalidations are specified against that map view, which is what the
//! session manager's contracts and laws are stated over.

use vstd::prelude::*;
use vstd::pervasive::VecAdditionalExecFns;

use crate::internal::{SessionData, TokenMinterEntry};

verus! {

/// Whether the pairs carry pairwise distinct keys.
pub open spec fn assoc_unique<V>(s: Seq<(String, V)>) -> bool {
    forall|i: int, j: int| 0 <= i < j < s.len() ==> s[i].0@ != s[j].0@
}

/// The map a pair sequence denotes; later pairs win, so with unique keys the
/// map is exactly the rows.
pub open spec fn assoc_map_of<V>(s: Seq<(String, V)>) -> Map<Seq<char>, V>
    decreases s.len(),
{
    if s.len() == 0 {
        Map::empty()
    } else {
        assoc_map_of(s.drop_last()).insert(s.last().0@, s.last().1)
    }
}

/// Dropping the last pair keeps keys unique.
proof fn lemma_assoc_unique_drop_last<V>(s: Seq<(String, V)>)
    requires
        assoc_unique(s),
        s.len() > 0,
    ensures
        assoc_unique(s.drop_last()),
{
    assert forall|i: int, j: int| 0 <= i < j < s.drop_last().len() implies s.drop_last()[i].0@
        != s.drop_last()[j].0@ by {
        assert(s.drop_last()[i] == s[i]);
        assert(s.drop_last()[j] == s[j]);
    }
}

/// A key is in the map exactly when some pair carries it.
proof fn lemma_assoc_contains<V>(s: Seq<(String, V)>, k: Seq<char>)
    ensures
        assoc_map_of(s).contains_key(k) <==> (exists|i: int| 0 <= i < s.len() && s[i].0@ == k),
    decreases s.len(),
{
    if s.len() == 0 {
    } else {
        lemma_assoc_contains(s.drop_last(), k);
        if s.last().0@ == k {
            assert(s[s.len() - 1].0@ == k);
        } else {
            if exists|i: int| 0 <= i < s.len() && s[i].0@ == k {
                let i = choose|i: int| 0 <= i < s.len() && s[i].0@ == k;
                assert(i < s.len() - 1);
                assert(s.drop_last()[i] == s[i]);
            }
            if assoc_map_of(s.drop_last()).contains_key(k) {
                let i = choose|i: int|
                    0 <= i < s.drop_last().len() && s.drop_last()[i].0@ == k;
                assert(s[i] == s.drop_last()[i]);
            }
        }
    }
}

/// With unique keys, the map's value at a pair's key is that pair's value.
proof fn lemma_assoc_value<V>(s: Seq<(String, V)>, i: int)
    requires
        assoc_unique(s),
        0 <= i < s.len(),
    ensures
        assoc_map_of(s).contains_key(s[i].0@),
        assoc_map_of(s)[s[i].0@] == s[i].1,
    decreases s.len(),
{
    if i == s.len() - 1 {
    } else {
        lemma_assoc_unique_drop_last(s);
        assert(s.drop_last()[i] == s[i]);
        lemma_assoc_value(s.drop_last(), i);
        assert(s.last().0@ != s[i].0@);
    }
}

/// Appending a pair with a fresh key inserts it into the map.
proof fn lemma_assoc_push<V>(s: Seq<(String, V)>, p: (String, V))
    requires
        assoc_unique(s),
        forall|i: int| 0 <= i < s.len() ==> s[i].0@ != p.0@,
    ensures
        assoc_unique(s.push(p)),
        assoc_map_of(s.push(p)) == assoc_map_of(s).insert(p.0@, p.1),
{
    assert(s.push(p).drop_last() =~= s);
    assert(s.push(p).last() == p);
    assert forall|i: int, j: int| 0 <= i < j < s.push(p).len() implies s.push(p)[i].0@
        != s.push(p)[j].0@ by {
        if j < s.len() {
            assert(s.push(p)[i] == s[i]);
            assert(s.push(p)[j] == s[j]);
        } else {
            assert(s.push(p)[i] == s[i]);
            assert(s.push(p)[j] == p);
        }
    }
}

/// Replacing the pair at a key's index updates the map at that key.
proof fn lemma_assoc_update<V>(s: Seq<(String, V)>, i: int, p: (String, V))
    requires
        assoc_unique(s),
        0 <= i < s.len(),
        p.0@ == s[i].0@,
    ensures
        assoc_unique(s.update(i, p)),
        assoc_map_of(s.update(i, p)) =~= assoc_map_of(s).insert(p.0@, p.1),
    decreases s.len(),
{
    assert forall|i2: int, j2: int| 0 <= i2 < j2 < s.update(i, p).len() implies s.update(
        i,
        p,
    )[i2].0@ != s.update(i, p)[j2].0@ by {
        assert(s.update(i, p)[i2].0@ == s[i2].0@);
        assert(s.update(i, p)[j2].0@ == s[j2].0@);
    }
    if i == s.len() - 1 {
        assert(s.update(i, p).drop_last() =~= s.drop_last());
        assert(s.update(i, p).last() == p);
        assert(assoc_map_of(s.drop_last()).insert(s.last().0@, s.last().1).insert(p.0@, p.1)
            =~= assoc_map_of(s.drop_last()).insert(p.0@, p.1));
    } else {
        lemma_assoc_unique_drop_last(s);
        assert(s.drop_last()[i] == s[i]);
        lemma_assoc_update(s.drop_last(), i, p);
        assert(s.update(i, p).drop_last() =~= s.drop_last().update(i, p));
        assert(s.update(i, p).last() == s.last());
        assert(s.last().0@ != p.0@);
        assert(assoc_map_of(s.drop_last()).insert(p.0@, p.1).insert(s.last().0@, s.last().1)
            =~= assoc_map_of(s.drop_last()).insert(s.last().0@, s.last().1).insert(p.0@, p.1));
    }
}

/// Rewriting every value in place, keeping keys, rewrites the map pointwise.
proof fn lemma_assoc_pointwise<V>(s1: Seq<(String, V)>, s2: Seq<(String, V)>, f: spec_fn(V) -> V)
    requires
        assoc_unique(s1),
        s1.len() == s2.len(),
        forall|i: int|
            0 <= i < s1.len() ==> #[trigger] s2[i].0@ == s1[i].0@ && s2[i].1 == f(s1[i].1),
    ensures
        assoc_unique(s2),
        assoc_map_of(s2).dom() =~= assoc_map_of(s1).dom(),
        forall|k: Seq<char>|
            #[trigger] assoc_map_of(s1).contains_key(k) ==> assoc_map_of(s2)[k] == f(
                assoc_map_of(s1)[k],
            ),
    decreases s1.len(),
{
    assert forall|i: int, j: int| 0 <= i < j < s2.len() implies s2[i].0@ != s2[j].0@ by {
        assert(s2[i].0@ == s1[i].0@);
        assert(s2[j].0@ == s1[j].0@);
    }
    if s1.len() == 0 {
    } else {
        lemma_assoc_unique_drop_last(s1);
        assert(forall|i: int|
            0 <= i < s1.drop_last().len() ==> #[trigger] s2.drop_last()[i].0@
                == s1.drop_last()[i].0@ && s2.drop_last()[i].1 == f(s1.drop_last()[i].1)) by {
            assert forall|i: int| 0 <= i < s1.drop_last().len() implies #[trigger] s2.drop_last()[
                i
            ].0@ == s1.drop_last()[i].0@ && s2.drop_last()[i].1 == f(s1.drop_last()[i].1) by {
                assert(s1.drop_last()[i] == s1[i]);
                assert(s2.drop_last()[i] == s2[i]);
            }
        }
        lemma_assoc_pointwise(s1.drop_last(), s2.drop_last(), f);
        assert(s2.last().0@ == s1.last().0@ && s2.last().1 == f(s1.last().1)) by {
            assert(s1.last() == s1[s1.len() - 1]);
            assert(s2.last() == s2[s2.len() - 1]);
        }
        assert forall|k: Seq<char>| #[trigger]
            assoc_map_of(s1).contains_key(k) implies assoc_map_of(s2)[k] == f(
            assoc_map_of(s1)[k],
        ) by {
            if k == s1.last().0@ {
            } else {
                lemma_assoc_contains(s1, k);
                lemma_assoc_contains(s1.drop_last(), k);
                let i = choose|i: int| 0 <= i < s1.len() && s1[i].0@ == k;
                assert(i < s1.len() - 1);
                assert(s1.drop_last()[i] == s1[i]);
            }
        }
    }
}

/// Cache of finished tokens, keyed by content binding.
#[derive(Debug)]
pub struct SessionCache {
    entries: Vec<(String, SessionData)>,
}

impl View for SessionCache {
    type V = Map<Seq<char>, SessionData>;

    closed spec fn view(&self) -> Map<Seq<char>, SessionData> {
        assoc_map_of(self.entries@)
    }
}

impl SessionCache {
    /// Rows carry pairwise distinct keys.
    pub closed spec fn wf(&self) -> bool {
        assoc_unique(self.entries@)
    }

    /// Creates an empty cache.
    pub fn new() -> (r: SessionCache)
        ensures
            r.wf(),
            r@ == Map::<Seq<char>, SessionData>::empty(),
    {
        SessionCache { entries: Vec::new() }
    }

    /// Number of rows.
    pub fn len(&self) -> (r: usize)
        requires
            self.wf(),
        ensures
            r == self@.dom().len(),
    {
        proof {
            lemma_assoc_dom_len(self.entries@);
        }
        self.entries.len()
    }

    /// The row at a key, if any.
    pub fn get(&self, key: &String) -> (r: Option<&SessionData>)
        requires
            self.wf(),
        ensures
            match r {
                Some(d) => self@.contains_key(key@) && *d == self@[key@],
                None => !self@.contains_key(key@),
            },
    {
        let n = self.entries.len();
        let mut i: usize = 0;
        while i < n
            invariant
                self.wf(),
                self.entries@.len() == n,
                i <= n,
                forall|j: int| 0 <= j < i ==> self.entries@[j].0@ != key@,
            decreases n - i,
        {
            if self.entries[i].0 == *key {
                proof {
                    lemma_assoc_value(self.entries@, i as int);
                }
                return Some(&self.entries[i].1);
            }
            i = i + 1;
        }
        proof {
            lemma_assoc_contains(self.entries@, key@);
        }
        None
    }

    /// Inserts or replaces the row at a key.
    pub fn insert(&mut self, key: &String, value: SessionData)
        requires
            old(self).wf(),
        ensures
            final(self).wf(),
            final(self)@ =~= old(self)@.insert(key@, value),
    {
        let n = self.entries.len();
        let mut i: usize = 0;
        while i < n
            invariant
                self.wf(),
                self == old(self),
                self.entries@.len() == n,
                i <= n,
                forall|j: int| 0 <= j < i ==> self.entries@[j].0@ != key@,
            decreases n - i,
        {
            if self.entries[i].0 == *key {
                let pair = (key.clone(), value);
                proof {
                    lemma_assoc_update(self.entries@, i as int, pair);
                }
                self.entries.set(i, pair);
                return ;
            }
            i = i + 1;
        }
        let pair = (key.clone(), value);
        proof {
            lemma_assoc_push(self.entries@, pair);
        }
        self.entries.push(pair);
    }

    /// Removes every row expired at the given time; live rows are untouched.
    pub fn purge_expired(&mut self, now_unix: i64)
        requires
            old(self).wf(),
        ensures
            final(self).wf(),
            forall|k: Seq<char>|
                #[trigger] final(self)@.contains_key(k) <==> (old(self)@.contains_key(k) && old(
                    self,
                )@[k].expires_at > now_unix),
            forall|k: Seq<char>|
                #[trigger] final(self)@.contains_key(k) ==> final(self)@[k] == old(self)@[k],
    {
        let n = self.entries.len();
        let mut kept: Vec<(String, SessionData)> = Vec::new();
        let mut i: usize = 0;
        while i < n
            invariant
                self == old(self),
                self.wf(),
                self.entries@.len() == n,
                i <= n,
                assoc_unique(kept@),
                forall|k: Seq<char>|
                    #[trigger] assoc_map_of(kept@).contains_key(k) <==> exists|j: int|
                        0 <= j < i && #[trigger] self.entries@[j].0@ == k
                            && self.entries@[j].1.expires_at > now_unix,
                forall|k: Seq<char>|
                    #[trigger] assoc_map_of(kept@).contains_key(k) ==> exists|j: int|
                        0 <= j < i && #[trigger] self.entries@[j].0@ == k && assoc_map_of(kept@)[k]
                            == self.entries@[j].1,
            decreases n - i,
        {
            let ghost prev = kept@;
            if self.entries[i].1.expires_at > now_unix {
                let pair = (self.entries[i].0.clone(), self.entries[i].1.duplicate());
                proof {
                    assert(pair.0@ == self.entries@[i as int].0@ && pair.1 == self.entries@[
                        i as int
                    ].1);
                    assert forall|idx: int| 0 <= idx < prev.len() implies prev[idx].0@
                        != pair.0@ by {
                        lemma_assoc_value(prev, idx);
                        assert(assoc_map_of(prev).contains_key(prev[idx].0@));
                    }
                    lemma_assoc_push(prev, pair);
                }
                kept.push(pair);
            }
            proof {
                let entries = self.entries@;
                assert forall|k: Seq<char>| #[trigger] assoc_map_of(kept@).contains_key(
                    k,
                ) implies exists|j: int|
                    0 <= j < i + 1 && #[trigger] entries[j].0@ == k && entries[j].1.expires_at
                        > now_unix by {
                    if entries[i as int].1.expires_at > now_unix && k == entries[i as int].0@ {
                        assert(entries[i as int].0@ == k && entries[i as int].1.expires_at
                            > now_unix);
                    } else {
                        assert(assoc_map_of(prev).contains_key(k));
                    }
                }
                assert forall|k: Seq<char>|
                    (exists|j: int|
                        0 <= j < i + 1 && #[trigger] entries[j].0@ == k && entries[j].1.expires_at
                            > now_unix) implies #[trigger] assoc_map_of(kept@).contains_key(k) by {
                    let j = choose|j: int|
                        0 <= j < i + 1 && #[trigger] entries[j].0@ == k && entries[j].1.expires_at
                            > now_unix;
                    if j == i {
                    } else {
                        assert(assoc_map_of(prev).contains_key(k));
                    }
                }
                assert forall|k: Seq<char>| #[trigger] assoc_map_of(kept@).contains_key(
                    k,
                ) implies exists|j: int|
                    0 <= j < i + 1 && #[trigger] entries[j].0@ == k && assoc_map_of(kept@)[k]
                        == entries[j].1 by {
                    if entries[i as int].1.expires_at > now_unix && k == entries[i as int].0@ {
                        assert(assoc_map_of(kept@)[k] == entries[i as int].1);
                    } else {
                        assert(assoc_map_of(prev).contains_key(k));
                        let j = choose|j: int|
                            0 <= j < i && #[trigger] entries[j].0@ == k && assoc_map_of(prev)[k]
                                == entries[j].1;
                        assert(assoc_map_of(kept@)[k] == assoc_map_of(prev)[k]);
                        assert(entries[j].0@ == k && assoc_map_of(kept@)[k] == entries[j].1);
                    }
                }
            }
            i = i + 1;
        }
        proof {
            let entries = self.entries@;
            assert forall|k: Seq<char>| #[trigger] assoc_map_of(kept@).contains_key(k) implies (
            assoc_map_of(entries).contains_key(k) && assoc_map_of(entries)[k].expires_at > now_unix
                && assoc_map_of(kept@)[k] == assoc_map_of(entries)[k]) by {
                let j = choose|j: int|
                    0 <= j < n && #[trigger] entries[j].0@ == k && assoc_map_of(kept@)[k]
                        == entries[j].1;
                lemma_assoc_value(entries, j);
            }
            assert forall|k: Seq<char>|
                assoc_map_of(entries).contains_key(k) && assoc_map_of(entries)[k].expires_at
                    > now_unix implies #[trigger] assoc_map_of(kept@).contains_key(k) by {
                lemma_assoc_contains(entries, k);
                let j = choose|j: int| 0 <= j < entries.len() && entries[j].0@ == k;
                lemma_assoc_value(entries, j);
                assert(entries[j].0@ == k && entries[j].1.expires_at > now_unix);
            }
        }
        self.entries = kept;
    }

    /// Drops every row.
    pub fn clear(&mut self)
        ensures
            final(self).wf(),
            final(self)@ =~= Map::<Seq<char>, SessionData>::empty(),
    {
        self.entries = Vec::new();
    }

    /// Copy of the cache; row by row, so the result is known equal.
    pub fn duplicate(&self) -> (r: SessionCache)
        requires
            self.wf(),
        ensures
            r.wf(),
            r@ == self@,
    {
        let n = self.entries.len();
        let mut rows: Vec<(String, SessionData)> = Vec::new();
        let mut i: usize = 0;
        while i < n
            invariant
                self.entries@.len() == n,
                i <= n,
                rows@ == self.entries@.take(i as int),
            decreases n - i,
        {
            let pair = (self.entries[i].0.clone(), self.entries[i].1.duplicate());
            proof {
                assert(pair == self.entries@[i as int]);
                assert(self.entries@.take(i as int).push(self.entries@[i as int])
                    =~= self.entries@.take(i + 1));
            }
            rows.push(pair);
            i = i + 1;
        }
        proof {
            assert(self.entries@.take(n as int) =~= self.entries@);
        }
        SessionCache { entries: rows }
    }
}

/// With unique keys, the map's domain is as large as the row count.
proof fn lemma_assoc_dom_len<V>(s: Seq<(String, V)>)
    requires
        assoc_unique(s),
    ensures
        assoc_map_of(s).dom().finite(),
        assoc_map_of(s).dom().len() == s.len(),
    decreases s.len(),
{
    if s.len() == 0 {
    } else {
        lemma_assoc_unique_drop_last(s);
        lemma_assoc_dom_len(s.drop_last());
        lemma_assoc_contains(s.drop_last(), s.last().0@);
        assert(forall|i: int| 0 <= i < s.drop_last().len() ==> #[trigger] s.drop_last()[i].0@
            != s.last().0@) by {
            assert forall|i: int| 0 <= i < s.drop_last().len() implies #[trigger] s.drop_last()[
                i
            ].0@ != s.last().0@ by {
                assert(s.drop_last()[i] == s[i]);
                assert(s[i].0@ != s[s.len() - 1].0@);
            }
        }
        assert(!assoc_map_of(s.drop_last()).contains_key(s.last().0@));
        assert(assoc_map_of(s).dom() =~= assoc_map_of(s.drop_last()).dom().insert(s.last().0@));
    }
}

/// Cache of minters with their credentials, keyed by network context.
#[derive(Debug)]
pub struct MinterCache {
    entries: Vec<(String, TokenMinterEntry)>,
}

impl View for MinterCache {
    type V = Map<Seq<char>, TokenMinterEntry>;

    closed spec fn view(&self) -> Map<Seq<char>, TokenMinterEntry> {
        assoc_map_of(self.entries@)
    }
}

/// A minter row with its expiry forced to the epoch, everything else kept.
pub open spec fn spec_expire_entry(e: TokenMinterEntry) -> TokenMinterEntry {
    TokenMinterEntry { expiry: 0, ..e }
}

impl MinterCache {
    /// Rows carry pairwise distinct keys.
    pub closed spec fn wf(&self) -> bool {
        assoc_unique(self.entries@)
    }

    /// Creates an empty cache.
    pub fn new() -> (r: MinterCache)
        ensures
            r.wf(),
            r@ == Map::<Seq<char>, TokenMinterEntry>::empty(),
    {
        MinterCache { entries: Vec::new() }
    }

    /// Number of rows.
    pub fn len(&self) -> (r: usize)
        requires
            self.wf(),
        ensures
            r == self@.dom().len(),
    {
        proof {
            lemma_assoc_dom_len(self.entries@);
        }
        self.entries.len()
    }

    /// The row at a key when it is live at the given time — that is, not yet
    /// strictly past its expiry; an absent or expired row yields nothing.
    pub fn get_live(&self, key: &String, now_unix: i64) -> (r: Option<&TokenMinterEntry>)
        requires
            self.wf(),
        ensures
            match r {
                Some(e) => self@.contains_key(key@) && *e == self@[key@] && !e.spec_is_expired(
                    now_unix as int,
                ),
                None => !self@.contains_key(key@) || self@[key@].spec_is_expired(now_unix as int),
            },
    {
        let n = self.entries.len();
        let mut i: usize = 0;
        while i < n
            invariant
                self.wf(),
                self.entries@.len() == n,
                i <= n,
                forall|j: int| 0 <= j < i ==> self.entries@[j].0@ != key@,
            decreases n - i,
        {
            if self.entries[i].0 == *key {
                proof {
                    lemma_assoc_value(self.entries@, i as int);
                }
                if !self.entries[i].1.is_expired(now_unix) {
                    return Some(&self.entries[i].1);
                } else {
                    return None;
                }
            }
            i = i + 1;
        }
        proof {
            lemma_assoc_contains(self.entries@, key@);
        }
        None
    }

    /// Inserts or replaces the row at a key.
    pub fn insert(&mut self, key: &String, value: TokenMinterEntry)
        requires
            old(self).wf(),
        ensures
            final(self).wf(),
            final(self)@ =~= old(self)@.insert(key@, value),
    {
        let n = self.entries.len();
        let mut i: usize = 0;
        while i < n
            invariant
                self.wf(),
                self == old(self),
                self.entries@.len() == n,
                i <= n,
                forall|j: int| 0 <= j < i ==> self.entries@[j].0@ != key@,
            decreases n - i,
        {
            if self.entries[i].0 == *key {
                let pair = (key.clone(), value);
                proof {
                    lemma_assoc_update(self.entries@, i as int, pair);
                }
                self.entries.set(i, pair);
                return ;
            }
            i = i + 1;
        }
        let pair = (key.clone(), value);
        proof {
            lemma_assoc_push(self.entries@, pair);
        }
        self.entries.push(pair);
    }

    /// Drops every row.
    pub fn clear(&mut self)
        ensures
            final(self).wf(),
            final(self)@ =~= Map::<Seq<char>, TokenMinterEntry>::empty(),
    {
        self.entries = Vec::new();
    }

    /// Forces every row's expiry to the epoch without removing any key:
    /// the key set is preserved and every value keeps its other fields.
    pub fn expire_all(&mut self)
        requires
            old(self).wf(),
        ensures
            final(self).wf(),
            final(self)@.dom() =~= old(self)@.dom(),
            forall|k: Seq<char>|
                #[trigger] old(self)@.contains_key(k) ==> final(self)@[k] == spec_expire_entry(
                    old(self)@[k],
                ),
    {
        let n = self.entries.len();
        let mut i: usize = 0;
        while i < n
            invariant
                old(self).wf(),
                self.entries@.len() == n,
                n == old(self).entries@.len(),
                i <= n,
                forall|j: int|
                    0 <= j < i ==> #[trigger] self.entries@[j].0@ == old(self).entries@[j].0@
                        && self.entries@[j].1 == spec_expire_entry(old(self).entries@[j].1),
                forall|j: int| i <= j < n ==> self.entries@[j] == old(self).entries@[j],
            decreases n - i,
        {
            let expired = TokenMinterEntry {
                expiry: 0,
                ..self.entries[i].1.duplicate()
            };
            let pair = (self.entries[i].0.clone(), expired);
            proof {
                assert(pair.0@ == old(self).entries@[i as int].0@);
                assert(pair.1 == spec_expire_entry(old(self).entries@[i as int].1));
            }
            self.entries.set(i, pair);
            i = i + 1;
        }
        proof {
            lemma_assoc_pointwise(
                old(self).entries@,
                self.entries@,
                |e: TokenMinterEntry| spec_expire_entry(e),
            );
        }
    }

    /// The keys of every row, each exactly once.
    pub fn keys(&self) -> (r: Vec<String>)
        requires
            self.wf(),
        ensures
            forall|i: int| 0 <= i < r@.len() ==> self@.contains_key(#[trigger] r@[i]@),
            forall|k: Seq<char>|
                #[trigger] self@.contains_key(k) ==> exists|i: int| 0 <= i < r@.len() && r@[i]@ == k,
            forall|i: int, j: int| 0 <= i < j < r@.len() ==> r@[i]@ != r@[j]@,
    {
        let n = self.entries.len();
        let mut out: Vec<String> = Vec::new();
        let mut i: usize = 0;
        while i < n
            invariant
                self.wf(),
                self.entries@.len() == n,
                i <= n,
                out@.len() == i,
                forall|j: int| 0 <= j < i ==> out@[j]@ == self.entries@[j].0@,
            decreases n - i,
        {
            out.push(self.entries[i].0.clone());
            i = i + 1;
        }
        proof {
            assert forall|i2: int| 0 <= i2 < out@.len() implies self@.contains_key(
                #[trigger] out@[i2]@,
            ) by {
                lemma_assoc_value(self.entries@, i2);
            }
            assert forall|k: Seq<char>| #[trigger] self@.contains_key(k) implies exists|i2: int|
                0 <= i2 < out@.len() && out@[i2]@ == k by {
                lemma_assoc_contains(self.entries@, k);
                let i2 = choose|i2: int| 0 <= i2 < self.entries@.len() && self.entries@[i2].0@ == k;
                assert(out@[i2]@ == k);
            }
        }
        out
    }
}

} // verus!
