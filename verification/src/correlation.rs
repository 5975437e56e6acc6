//! The table that bridges a submitted transaction to the receipt that will
//! carry its outcome, which may arrive in a later block.

use crate::text::same_text;
use vstd::prelude::*;

verus! {

/// A submitted transaction.
#[derive(Clone, Debug, PartialEq, Eq)]
pub struct Transaction {
    pub hash: String,
    pub receiver_id: String,
    /// The receipts the transaction produced; the first one carries its
    /// outcome.
    pub receipt_ids: Vec<String>,
}

impl Transaction {
    /// The transaction produced at least one receipt.
    pub open spec fn well_formed(&self) -> bool {
        self.receipt_ids@.len() >= 1
    }

    /// Whether the transaction produced at least one receipt.
    pub fn is_well_formed(&self) -> (r: bool)
        ensures
            r == self.well_formed(),
    {
        self.receipt_ids.len() >= 1
    }
}

/// What a table holds: for each awaited receipt id, the hash of the
/// transaction that produced it.
pub type Pending = Map<Seq<char>, Seq<char>>;

/// The table after `track`: the receipt id is awaited and leads to the hash.
pub open spec fn after_track(table: Pending, receipt_id: Seq<char>, hash: Seq<char>) -> Pending {
    table.insert(receipt_id, hash)
}

/// The table after `resolve`: the receipt id is no longer awaited.
pub open spec fn after_resolve(table: Pending, receipt_id: Seq<char>) -> Pending {
    table.remove(receipt_id)
}

/// What `resolve` returns: the hash the receipt id leads to, if it is
/// awaited.
pub open spec fn resolution(table: Pending, receipt_id: Seq<char>) -> Option<Seq<char>> {
    if table.dom().contains(receipt_id) {
        Some(table[receipt_id])
    } else {
        None
    }
}

/// Resolving a receipt id that is not awaited returns nothing and leaves
/// the table as it was.
pub proof fn lemma_resolve_untracked(table: Pending, receipt_id: Seq<char>)
    requires
        !table.dom().contains(receipt_id),
    ensures
        resolution(table, receipt_id) is None,
        after_resolve(table, receipt_id) == table,
{
    assert(after_resolve(table, receipt_id) =~= table);
}

/// After one `track`, the first `resolve` of the receipt id returns the
/// hash and the second returns nothing, whatever the table held before.
pub proof fn lemma_resolve_twice(table: Pending, receipt_id: Seq<char>, hash: Seq<char>)
    ensures
        resolution(after_track(table, receipt_id, hash), receipt_id) == Some(hash),
        resolution(after_resolve(after_track(table, receipt_id, hash), receipt_id), receipt_id) is None,
        after_resolve(after_resolve(after_track(table, receipt_id, hash), receipt_id), receipt_id) == after_resolve(
            after_track(table, receipt_id, hash),
            receipt_id,
        ),
{
    let once = after_resolve(after_track(table, receipt_id, hash), receipt_id);
    assert(after_resolve(once, receipt_id) =~= once);
}

/// Tracking and resolving one receipt id leaves every other entry alone.
pub proof fn lemma_other_entries_kept(
    table: Pending,
    receipt_id: Seq<char>,
    hash: Seq<char>,
    other: Seq<char>,
)
    requires
        other != receipt_id,
    ensures
        resolution(after_track(table, receipt_id, hash), other) == resolution(table, other),
        resolution(after_resolve(table, receipt_id), other) == resolution(table, other),
{
}

/// The entry at position `i` of `entries` has the key `key`.
pub open spec fn key_at(entries: Seq<(Seq<char>, Seq<char>)>, key: Seq<char>, i: int) -> bool {
    0 <= i < entries.len() && entries[i].0 == key
}

/// No two entries have the same key.
pub open spec fn distinct_keys(entries: Seq<(Seq<char>, Seq<char>)>) -> bool {
    forall|i: int, j: int| 0 <= i < j < entries.len() ==> entries[i].0 != entries[j].0
}

/// The map that a list of entries with distinct keys stands for.
pub open spec fn table_of(entries: Seq<(Seq<char>, Seq<char>)>) -> Pending {
    Map::new(
        |key: Seq<char>| exists|i: int| key_at(entries, key, i),
        |key: Seq<char>| entries[choose|i: int| key_at(entries, key, i)].1,
    )
}

/// The contents of a list of entries.
pub open spec fn entry_views(entries: Seq<(String, String)>) -> Seq<(Seq<char>, Seq<char>)> {
    Seq::new(entries.len(), |i: int| (entries[i].0@, entries[i].1@))
}

proof fn lemma_table_push(entries: Seq<(Seq<char>, Seq<char>)>, key: Seq<char>, hash: Seq<char>)
    requires
        distinct_keys(entries),
        forall|i: int| !key_at(entries, key, i),
    ensures
        distinct_keys(entries.push((key, hash))),
        table_of(entries.push((key, hash))) == table_of(entries).insert(key, hash),
{
    let after = entries.push((key, hash));
    let n = entries.len() as int;
    assert(distinct_keys(after)) by {
        assert forall|i: int, j: int| 0 <= i < j < after.len() implies after[i].0 != after[j].0 by {
            if j == n {
                assert(!key_at(entries, key, i));
            }
        }
    }
    assert forall|k: Seq<char>| #[trigger]
        table_of(after).dom().contains(k) <==> table_of(entries).insert(key, hash).dom().contains(
            k,
        ) by {
        if k == key {
            assert(key_at(after, k, n));
        } else {
            if exists|i: int| key_at(entries, k, i) {
                let i = choose|i: int| key_at(entries, k, i);
                assert(key_at(after, k, i));
            }
            if exists|i: int| key_at(after, k, i) {
                let i = choose|i: int| key_at(after, k, i);
                assert(key_at(entries, k, i));
            }
        }
    }
    assert forall|k: Seq<char>| #[trigger]
        table_of(after).dom().contains(k) implies table_of(after)[k] == table_of(entries).insert(
        key,
        hash,
    )[k] by {
        let i = choose|i: int| key_at(after, k, i);
        if k == key {
            if i != n {
                assert(key_at(entries, key, i));
            }
        } else {
            assert(key_at(entries, k, i));
            let j = choose|j: int| key_at(entries, k, j);
            if i != j {
                assert(entries[i].0 != entries[j].0);
            }
        }
    }
    assert(table_of(after) =~= table_of(entries).insert(key, hash));
}

proof fn lemma_table_update(
    entries: Seq<(Seq<char>, Seq<char>)>,
    at: int,
    hash: Seq<char>,
)
    requires
        distinct_keys(entries),
        0 <= at < entries.len(),
    ensures
        distinct_keys(entries.update(at, (entries[at].0, hash))),
        table_of(entries.update(at, (entries[at].0, hash))) == table_of(entries).insert(
            entries[at].0,
            hash,
        ),
{
    let key = entries[at].0;
    let after = entries.update(at, (key, hash));
    assert(distinct_keys(after)) by {
        assert forall|i: int, j: int| 0 <= i < j < after.len() implies after[i].0 != after[j].0 by {
            assert(after[i].0 == entries[i].0);
            assert(after[j].0 == entries[j].0);
        }
    }
    assert forall|k: Seq<char>| #[trigger]
        table_of(after).dom().contains(k) <==> table_of(entries).insert(key, hash).dom().contains(
            k,
        ) by {
        if k == key {
            assert(key_at(after, k, at));
        } else {
            if exists|i: int| key_at(entries, k, i) {
                let i = choose|i: int| key_at(entries, k, i);
                assert(key_at(after, k, i));
            }
            if exists|i: int| key_at(after, k, i) {
                let i = choose|i: int| key_at(after, k, i);
                assert(key_at(entries, k, i));
            }
        }
    }
    assert forall|k: Seq<char>| #[trigger]
        table_of(after).dom().contains(k) implies table_of(after)[k] == table_of(entries).insert(
        key,
        hash,
    )[k] by {
        let i = choose|i: int| key_at(after, k, i);
        if k == key {
            if i != at {
                assert(after[i].0 == entries[i].0);
                if i < at {
                    assert(entries[i].0 != entries[at].0);
                } else {
                    assert(entries[at].0 != entries[i].0);
                }
            }
        } else {
            assert(key_at(entries, k, i));
            let j = choose|j: int| key_at(entries, k, j);
            if i < j {
                assert(entries[i].0 != entries[j].0);
            } else if j < i {
                assert(entries[j].0 != entries[i].0);
            }
        }
    }
    assert(table_of(after) =~= table_of(entries).insert(key, hash));
}

proof fn lemma_table_remove(entries: Seq<(Seq<char>, Seq<char>)>, at: int)
    requires
        distinct_keys(entries),
        0 <= at < entries.len(),
    ensures
        distinct_keys(entries.remove(at)),
        table_of(entries.remove(at)) == table_of(entries).remove(entries[at].0),
        table_of(entries).dom().contains(entries[at].0),
        table_of(entries)[entries[at].0] == entries[at].1,
{
    let key = entries[at].0;
    let after = entries.remove(at);
    assert(key_at(entries, key, at));
    let c = choose|i: int| key_at(entries, key, i);
    if c < at {
        assert(entries[c].0 != entries[at].0);
    } else if at < c {
        assert(entries[at].0 != entries[c].0);
    }
    assert(distinct_keys(after)) by {
        assert forall|i: int, j: int| 0 <= i < j < after.len() implies after[i].0 != after[j].0 by {
            let oi = if i < at { i } else { i + 1 };
            let oj = if j < at { j } else { j + 1 };
            assert(after[i] == entries[oi]);
            assert(after[j] == entries[oj]);
            assert(entries[oi].0 != entries[oj].0);
        }
    }
    assert forall|k: Seq<char>| #[trigger]
        table_of(after).dom().contains(k) <==> table_of(entries).remove(key).dom().contains(
            k,
        ) by {
        if exists|i: int| key_at(after, k, i) {
            let i = choose|i: int| key_at(after, k, i);
            let oi = if i < at { i } else { i + 1 };
            assert(after[i] == entries[oi]);
            assert(key_at(entries, k, oi));
            if k == key {
                if oi < at {
                    assert(entries[oi].0 != entries[at].0);
                } else {
                    assert(entries[at].0 != entries[oi].0);
                }
            }
        }
        if k != key && exists|i: int| key_at(entries, k, i) {
            let i = choose|i: int| key_at(entries, k, i);
            let ni = if i < at { i } else { i - 1 };
            assert(after[ni] == entries[i]);
            assert(key_at(after, k, ni));
        }
    }
    assert forall|k: Seq<char>| #[trigger]
        table_of(after).dom().contains(k) implies table_of(after)[k] == table_of(entries).remove(
        key,
    )[k] by {
        let i = choose|i: int| key_at(after, k, i);
        let oi = if i < at { i } else { i + 1 };
        assert(after[i] == entries[oi]);
        assert(key_at(entries, k, oi));
        let j = choose|j: int| key_at(entries, k, j);
        if oi < j {
            assert(entries[oi].0 != entries[j].0);
        } else if j < oi {
            assert(entries[j].0 != entries[oi].0);
        }
    }
    assert(table_of(after) =~= table_of(entries).remove(key));
}

/// The correlation table: the awaited receipt ids, each with the hash of
/// the transaction that produced it.
///
/// An entry stays until its receipt id is resolved.
#[derive(Debug)]
pub struct CorrelationTable {
    entries: Vec<(String, String)>,
}

impl CorrelationTable {
    #[verifier::type_invariant]
    spec fn distinct(&self) -> bool {
        distinct_keys(entry_views(self.entries@))
    }

    /// The map from awaited receipt id to transaction hash.
    pub closed spec fn view(&self) -> Pending {
        table_of(entry_views(self.entries@))
    }

    /// The awaited receipt ids.
    pub open spec fn awaited(&self) -> Set<Seq<char>> {
        self@.dom()
    }

    /// A table that awaits nothing.
    pub fn new() -> (r: Self)
        ensures
            r@ == Map::<Seq<char>, Seq<char>>::empty(),
    {
        let r = CorrelationTable { entries: Vec::new() };
        proof {
            assert(table_of(entry_views(r.entries@)) =~= Map::<Seq<char>, Seq<char>>::empty());
        }
        r
    }

    /// The position of the entry for `receipt_id`, if there is one.
    fn position(&self, receipt_id: &str) -> (r: Option<usize>)
        ensures
            r is Some <==> self@.dom().contains(receipt_id@),
            r matches Some(i) ==> key_at(entry_views(self.entries@), receipt_id@, i as int),
    {
        let ghost views = entry_views(self.entries@);
        let mut i: usize = 0;
        while i < self.entries.len()
            invariant
                i <= self.entries.len(),
                views == entry_views(self.entries@),
                forall|j: int| 0 <= j < i ==> !key_at(views, receipt_id@, j),
            decreases self.entries.len() - i,
        {
            if same_text(self.entries[i].0.as_str(), receipt_id) {
                proof {
                    assert(key_at(views, receipt_id@, i as int));
                }
                return Some(i);
            }
            i = i + 1;
        }
        None
    }

    /// Whether the receipt id is awaited.
    pub fn is_awaited(&self, receipt_id: &str) -> (r: bool)
        ensures
            r == self.awaited().contains(receipt_id@),
    {
        self.position(receipt_id).is_some()
    }

    /// Records the first receipt of a transaction as awaited and lets it
    /// lead to the transaction's hash. An entry the receipt id already had is
    /// replaced.
    pub fn track(&mut self, tx: &Transaction)
        requires
            tx.well_formed(),
        ensures
            final(self)@ == after_track(old(self)@, tx.receipt_ids@[0]@, tx.hash@),
            final(self).awaited() == old(self).awaited().insert(tx.receipt_ids@[0]@),
    {
        proof {
            use_type_invariant(&*self);
        }
        let ghost before = entry_views(self.entries@);
        let found = self.position(tx.receipt_ids[0].as_str());
        let mut entries: Vec<(String, String)> = Vec::new();
        core::mem::swap(&mut self.entries, &mut entries);
        match found {
            Some(i) => {
                let key = entries[i].0.clone();
                entries.set(i, (key, tx.hash.clone()));
                proof {
                    lemma_table_update(before, i as int, tx.hash@);
                    assert(entry_views(entries@) =~= before.update(
                        i as int,
                        (before[i as int].0, tx.hash@),
                    ));
                }
            },
            None => {
                entries.push((tx.receipt_ids[0].clone(), tx.hash.clone()));
                proof {
                    lemma_table_push(before, tx.receipt_ids@[0]@, tx.hash@);
                    assert(entry_views(entries@) =~= before.push((tx.receipt_ids@[0]@, tx.hash@)));
                }
            },
        }
        core::mem::swap(&mut self.entries, &mut entries);
    }

    /// Takes the receipt id out of the table and returns the hash it led
    /// to; returns `None`, and changes nothing, where it is not awaited.
    pub fn resolve(&mut self, receipt_id: &str) -> (r: Option<String>)
        ensures
            final(self)@ == after_resolve(old(self)@, receipt_id@),
            resolution(old(self)@, receipt_id@) == match r {
                Some(hash) => Some(hash@),
                None => None,
            },
            !old(self).awaited().contains(receipt_id@) ==> final(self)@ == old(self)@,
            final(self).awaited() == old(self).awaited().remove(receipt_id@),
    {
        proof {
            use_type_invariant(&*self);
        }
        let ghost before = entry_views(self.entries@);
        let found = self.position(receipt_id);
        match found {
            Some(i) => {
                let mut entries: Vec<(String, String)> = Vec::new();
                core::mem::swap(&mut self.entries, &mut entries);
                let entry = entries.remove(i);
                proof {
                    lemma_table_remove(before, i as int);
                    assert(entry_views(entries@) =~= before.remove(i as int));
                }
                core::mem::swap(&mut self.entries, &mut entries);
                Some(entry.1)
            },
            None => {
                proof {
                    lemma_resolve_untracked(old(self)@, receipt_id@);
                }
                None
            },
        }
    }

    /// How many receipt ids are awaited.
    pub fn len(&self) -> (r: usize)
        ensures
            r == self.awaited().len(),
            self.awaited().finite(),
    {
        proof {
            use_type_invariant(self);
            lemma_table_size(entry_views(self.entries@));
        }
        self.entries.len()
    }
}

proof fn lemma_table_size(entries: Seq<(Seq<char>, Seq<char>)>)
    requires
        distinct_keys(entries),
    ensures
        table_of(entries).dom().finite(),
        table_of(entries).dom().len() == entries.len(),
    decreases entries.len(),
{
    if entries.len() == 0 {
        assert(table_of(entries).dom() =~= Set::<Seq<char>>::empty());
    } else {
        let at = entries.len() - 1;
        lemma_table_remove(entries, at);
        assert(entries.remove(at) == entries.drop_last());
        lemma_table_size(entries.drop_last());
        assert(table_of(entries).dom() =~= table_of(entries.drop_last()).dom().insert(
            entries[at].0,
        ));
    }
}

} // verus!
