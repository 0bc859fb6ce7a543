//! The in-memory cache of currently-valid API keys: a mapping from key to
//! owning source, populated from the IAM authority's snapshots.
//!
//! A snapshot is merged as a whole, insert-or-overwrite by key, with the later
//! record winning when the authority repeats a key; a merge never removes an
//! entry, so keys revoked at the authority stay until the process restarts.
//! One merge is one `&mut` call, so callers holding the cache behind a lock
//! observe either the pre-merge or the fully-merged mapping, never part of
//! one.

use vstd::prelude::*;
use crate::entities::IamKey;
use crate::errors::ApiError;

verus! {

/// The records an IAM fetch produced: those of a successful snapshot, none
/// on any fetch failure, which thus carries no new information.
pub open spec fn fetched_records(fetched: Result<Vec<IamKey>, ApiError>) -> Seq<IamKey> {
    match fetched {
        Ok(records) => records@,
        Err(_) => Seq::<IamKey>::empty(),
    }
}

/// The mapping an authority snapshot denotes: every record inserted in
/// order, so on a repeated key the later record wins.
pub open spec fn records_map(s: Seq<IamKey>) -> Map<Seq<char>, Seq<char>>
    decreases s.len(),
{
    if s.len() == 0 {
        Map::empty()
    } else {
        records_map(s.drop_last()).insert(s.last().apiKey@, s.last().source@)
    }
}

/// A snapshot's mapping holds a key exactly when some record carries it.
pub proof fn lemma_records_map_contains(s: Seq<IamKey>, k: Seq<char>)
    ensures
        records_map(s).contains_key(k) <==> exists|i: int| 0 <= i < s.len() && s[i].apiKey@ == k,
    decreases s.len(),
{
    if s.len() > 0 {
        lemma_records_map_contains(s.drop_last(), k);
        if s.last().apiKey@ == k {
            assert(s[s.len() - 1].apiKey@ == k);
        } else if records_map(s).contains_key(k) {
            let i = choose|i: int| 0 <= i < s.drop_last().len() && s.drop_last()[i].apiKey@ == k;
            assert(s[i].apiKey@ == k);
        } else if exists|i: int| 0 <= i < s.len() && s[i].apiKey@ == k {
            let i = choose|i: int| 0 <= i < s.len() && s[i].apiKey@ == k;
            assert(s.drop_last()[i].apiKey@ == k);
        }
    }
}

/// The mapping an entry list denotes, entries inserted in order.
pub open spec fn entries_map(s: Seq<(String, String)>) -> Map<Seq<char>, Seq<char>>
    decreases s.len(),
{
    if s.len() == 0 {
        Map::empty()
    } else {
        entries_map(s.drop_last()).insert(s.last().0@, s.last().1@)
    }
}

/// No two entries carry the same key.
pub open spec fn unique_keys(s: Seq<(String, String)>) -> bool {
    forall|i: int, j: int| 0 <= i < j < s.len() ==> s[i].0@ != s[j].0@
}

/// An entry list's mapping holds a key exactly when some entry carries it.
proof fn lemma_entries_map_contains(s: Seq<(String, String)>, k: Seq<char>)
    ensures
        entries_map(s).contains_key(k) <==> exists|i: int| 0 <= i < s.len() && s[i].0@ == k,
    decreases s.len(),
{
    if s.len() > 0 {
        lemma_entries_map_contains(s.drop_last(), k);
        if s.last().0@ == k {
            assert(s[s.len() - 1].0@ == k);
        } else if entries_map(s).contains_key(k) {
            let i = choose|i: int| 0 <= i < s.drop_last().len() && s.drop_last()[i].0@ == k;
            assert(s[i].0@ == k);
        } else if exists|i: int| 0 <= i < s.len() && s[i].0@ == k {
            let i = choose|i: int| 0 <= i < s.len() && s[i].0@ == k;
            assert(s.drop_last()[i].0@ == k);
        }
    }
}

/// With unique keys, the entry carrying a key decides its value.
proof fn lemma_entries_map_value(s: Seq<(String, String)>, i: int)
    requires
        unique_keys(s),
        0 <= i < s.len(),
    ensures
        entries_map(s).contains_key(s[i].0@),
        entries_map(s)[s[i].0@] == s[i].1@,
    decreases s.len(),
{
    if i == s.len() - 1 {
    } else {
        assert(s.drop_last()[i] == s[i]);
        lemma_entries_map_value(s.drop_last(), i);
        assert(s[i].0@ != s.last().0@);
    }
}

/// Overwriting the entry that carries a key is one insertion on the mapping.
proof fn lemma_entries_map_update(s: Seq<(String, String)>, i: int, p: (String, String))
    requires
        unique_keys(s),
        0 <= i < s.len(),
        p.0@ == s[i].0@,
    ensures
        entries_map(s.update(i, p)) == entries_map(s).insert(p.0@, p.1@),
    decreases s.len(),
{
    if i == s.len() - 1 {
        assert(s.update(i, p).drop_last() =~= s.drop_last());
        assert(s.update(i, p).last() == p);
        assert(entries_map(s.drop_last()).insert(s.last().0@, s.last().1@).insert(p.0@, p.1@)
            =~= entries_map(s.drop_last()).insert(p.0@, p.1@));
    } else {
        assert(s.update(i, p).drop_last() =~= s.drop_last().update(i, p));
        assert(s.drop_last()[i] == s[i]);
        lemma_entries_map_update(s.drop_last(), i, p);
        assert(s.update(i, p).last() == s.last());
        assert(p.0@ != s.last().0@);
        assert(entries_map(s.drop_last()).insert(p.0@, p.1@).insert(s.last().0@, s.last().1@)
            =~= entries_map(s.drop_last()).insert(s.last().0@, s.last().1@).insert(p.0@, p.1@));
    }
}

/// Appending an entry with a fresh key is one insertion on the mapping.
proof fn lemma_entries_map_push(s: Seq<(String, String)>, p: (String, String))
    ensures
        entries_map(s.push(p)) == entries_map(s).insert(p.0@, p.1@),
{
    assert(s.push(p).drop_last() =~= s);
    assert(s.push(p).last() == p);
}

/// The key cache: the live mapping from API key to owning source, shared by
/// all gate invocations of one process.
pub struct KeyCache {
    entries: Vec<(String, String)>,
}

impl View for KeyCache {
    type V = Map<Seq<char>, Seq<char>>;

    closed spec fn view(&self) -> Map<Seq<char>, Seq<char>> {
        entries_map(self.entries@)
    }
}

impl KeyCache {
    /// Entries carry pairwise-distinct keys, so the entry found by a scan
    /// decides the mapping.
    pub closed spec fn wf(&self) -> bool {
        unique_keys(self.entries@)
    }

    /// An empty cache, the state before the initial population.
    pub fn new() -> (r: KeyCache)
        ensures
            r.wf(),
            r@ == Map::<Seq<char>, Seq<char>>::empty(),
    {
        KeyCache { entries: Vec::new() }
    }

    /// Non-blocking read against the current snapshot: the source assigned
    /// to a key, or nothing when the key is not currently valid.
    pub fn lookup(&self, key: &String) -> (r: Option<String>)
        requires
            self.wf(),
        ensures
            match r {
                Some(v) => self@.contains_key(key@) && v@ == self@[key@],
                None => !self@.contains_key(key@),
            },
    {
        let n = self.entries.len();
        for i in 0..n
            invariant
                self.wf(),
                n == self.entries@.len(),
                forall|j: int| 0 <= j < i ==> self.entries@[j].0@ != key@,
        {
            if self.entries[i].0 == *key {
                proof {
                    lemma_entries_map_value(self.entries@, i as int);
                }
                return Some(self.entries[i].1.clone());
            }
        }
        proof {
            lemma_entries_map_contains(self.entries@, key@);
        }
        None
    }

    /// Insert-or-overwrite of one pair, the step a merge repeats.
    fn upsert(&mut self, key: String, value: String)
        requires
            old(self).wf(),
        ensures
            final(self).wf(),
            final(self)@ == old(self)@.insert(key@, value@),
    {
        let n = self.entries.len();
        for i in 0..n
            invariant
                self.wf(),
                self == old(self),
                n == self.entries@.len(),
                forall|j: int| 0 <= j < i ==> self.entries@[j].0@ != key@,
        {
            if self.entries[i].0 == key {
                proof {
                    lemma_entries_map_update(self.entries@, i as int, (key, value));
                }
                self.entries[i] = (key, value);
                return;
            }
        }
        proof {
            lemma_entries_map_push(self.entries@, (key, value));
        }
        self.entries.push((key, value));
    }

    /// Merges one authority snapshot: every record inserted or overwritten by
    /// key, nothing removed. The whole snapshot is applied in this one call,
    /// so no caller is ever handed a mapping with only part of it.
    pub fn merge_snapshot(&mut self, records: &Vec<IamKey>)
        requires
            old(self).wf(),
        ensures
            final(self).wf(),
            final(self)@ == old(self)@.union_prefer_right(records_map(records@)),
    {
        let n = records.len();
        for i in 0..n
            invariant
                self.wf(),
                n == records@.len(),
                self@ == old(self)@.union_prefer_right(records_map(records@.take(i as int))),
        {
            let key = records[i].apiKey.clone();
            let value = records[i].source.clone();
            proof {
                assert(records@.take(i + 1).drop_last() =~= records@.take(i as int));
                assert(records@.take(i + 1).last() == records@[i as int]);
            }
            self.upsert(key, value);
            proof {
                assert(self@ =~= old(self)@.union_prefer_right(
                    records_map(records@.take(i + 1)),
                ));
            }
        }
        proof {
            assert(records@.take(n as int) =~= records@);
        }
    }

    /// Exclusive refresh-then-read: merges the records one fetch produced
    /// (none when it failed), then looks the key up against the now-updated
    /// mapping. Callers holding the cache behind a lock observe either the
    /// pre-refresh or the fully-post-refresh state, never a partial merge.
    pub fn refresh_and_lookup(&mut self, key: &String, fetched: Result<Vec<IamKey>, ApiError>)
        -> (r: Option<String>)
        requires
            old(self).wf(),
        ensures
            final(self).wf(),
            final(self)@ == old(self)@.union_prefer_right(
                records_map(fetched_records(fetched)),
            ),
            match r {
                Some(v) => final(self)@.contains_key(key@) && v@ == final(self)@[key@],
                None => !final(self)@.contains_key(key@),
            },
    {
        let records = match fetched {
            Ok(records) => records,
            Err(_) => Vec::new(),
        };
        self.merge_snapshot(&records);
        self.lookup(key)
    }
}

/// Merging the same authority snapshot into a mapping twice yields the same
/// mapping as merging it once.
pub proof fn lemma_merge_idempotent(m: Map<Seq<char>, Seq<char>>, records: Seq<IamKey>)
    ensures
        m.union_prefer_right(records_map(records)).union_prefer_right(records_map(records))
            == m.union_prefer_right(records_map(records)),
{
    assert(m.union_prefer_right(records_map(records)).union_prefer_right(records_map(records))
        =~= m.union_prefer_right(records_map(records)));
}

} // verus!
