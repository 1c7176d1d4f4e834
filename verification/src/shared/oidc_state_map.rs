use crate::shared::oidc_state::{OidcState, OidcStateView};
use vstd::prelude::*;

verus! {

/// The pending logins, keyed by the CSRF state that the identity provider
/// hands back on the callback.
pub struct OidcStateMap {
    entries: Vec<(String, OidcState)>,
}

/// Some entry of `entries` has key `k`.
pub open spec fn has_key(entries: Seq<(String, OidcState)>, k: Seq<char>) -> bool {
    exists|i: int| 0 <= i < entries.len() && #[trigger] entries[i].0@ == k
}

/// The position of an entry with key `k`.
pub open spec fn key_index(entries: Seq<(String, OidcState)>, k: Seq<char>) -> int {
    choose|i: int| 0 <= i < entries.len() && #[trigger] entries[i].0@ == k
}

/// No two entries have the same key.
pub open spec fn keys_unique(entries: Seq<(String, OidcState)>) -> bool {
    forall|i: int, j: int|
        0 <= i < entries.len() && 0 <= j < entries.len() && i != j ==> #[trigger] entries[i].0@
            != #[trigger] entries[j].0@
}

/// The map that `entries` stands for.
pub open spec fn entries_map(entries: Seq<(String, OidcState)>) -> Map<Seq<char>, OidcStateView> {
    Map::new(|k: Seq<char>| has_key(entries, k), |k: Seq<char>| entries[key_index(entries, k)].1@)
}

/// With unique keys, entry `i` is what the map holds under its key.
proof fn lemma_entry_in_map(entries: Seq<(String, OidcState)>, i: int)
    requires
        keys_unique(entries),
        0 <= i < entries.len(),
    ensures
        entries_map(entries).dom().contains(entries[i].0@),
        entries_map(entries)[entries[i].0@] == entries[i].1@,
{
    let k = entries[i].0@;
    assert(has_key(entries, k));
    let j = key_index(entries, k);
    assert(entries[j].0@ == k);
}

impl View for OidcStateMap {
    type V = Map<Seq<char>, OidcStateView>;

    closed spec fn view(&self) -> Map<Seq<char>, OidcStateView> {
        entries_map(self.entries@)
    }
}

/// The position of the entry with key `key`.
fn find_entry(entries: &Vec<(String, OidcState)>, key: &String) -> (pos: Option<usize>)
    ensures
        match pos {
            Some(i) => i < entries@.len() && entries@[i as int].0@ == key@,
            None => !has_key(entries@, key@),
        },
{
    let mut i: usize = 0;
    while i < entries.len()
        invariant
            0 <= i <= entries@.len(),
            forall|j: int| 0 <= j < i ==> #[trigger] entries@[j].0@ != key@,
        decreases entries@.len() - i,
    {
        if entries[i].0 == *key {
            return Some(i);
        }
        i = i + 1;
    }
    None
}

/// Removes the entry at `i`, returning it; the map loses that key.
fn remove_entry(entries: &mut Vec<(String, OidcState)>, i: usize) -> (entry: (String, OidcState))
    requires
        keys_unique(old(entries)@),
        i < old(entries)@.len(),
    ensures
        keys_unique(final(entries)@),
        entry == old(entries)@[i as int],
        entries_map(old(entries)@).dom().contains(entry.0@),
        entries_map(old(entries)@)[entry.0@] == entry.1@,
        entries_map(final(entries)@) == entries_map(old(entries)@).remove(entry.0@),
{
    let ghost before = entries@;
    proof {
        lemma_entry_in_map(before, i as int);
    }
    let entry = entries.remove(i);
    let ghost after = entries@;
    assert(keys_unique(after)) by {
        assert forall|a: int, b: int|
            0 <= a < after.len() && 0 <= b < after.len() && a != b implies #[trigger] after[a].0@
            != #[trigger] after[b].0@ by {
            let a0 = if a < i { a } else { a + 1 };
            let b0 = if b < i { b } else { b + 1 };
            assert(after[a] == before[a0]);
            assert(after[b] == before[b0]);
        }
    }
    assert(entries_map(after) =~= entries_map(before).remove(entry.0@)) by {
        assert forall|k: Seq<char>| has_key(after, k) <==> (has_key(before, k) && k != entry.0@) by {
            if has_key(after, k) {
                let a = choose|a: int| 0 <= a < after.len() && #[trigger] after[a].0@ == k;
                let a0 = if a < i { a } else { a + 1 };
                assert(before[a0].0@ == k);
            }
            if has_key(before, k) && k != entry.0@ {
                let b = choose|b: int| 0 <= b < before.len() && #[trigger] before[b].0@ == k;
                assert(b != i);
                let a = if b < i { b } else { b - 1 };
                assert(after[a].0@ == k);
            }
        }
        assert forall|k: Seq<char>| #[trigger] has_key(after, k) implies entries_map(after)[k]
            == entries_map(before)[k] by {
            let a = choose|a: int| 0 <= a < after.len() && #[trigger] after[a].0@ == k;
            let a0 = if a < i { a } else { a + 1 };
            assert(after[a] == before[a0]);
            lemma_entry_in_map(after, a);
            lemma_entry_in_map(before, a0);
        }
    }
    entry
}

/// Appends an entry under a key that no entry has; the map gains it.
fn push_entry(entries: &mut Vec<(String, OidcState)>, key: String, state: OidcState)
    requires
        keys_unique(old(entries)@),
        !entries_map(old(entries)@).dom().contains(key@),
    ensures
        keys_unique(final(entries)@),
        entries_map(final(entries)@) == entries_map(old(entries)@).insert(key@, state@),
{
    let ghost before = entries@;
    let ghost k = key@;
    let ghost v = state@;
    entries.push((key, state));
    let ghost after = entries@;
    let ghost n = before.len() as int;
    assert(keys_unique(after)) by {
        assert forall|a: int, b: int|
            0 <= a < after.len() && 0 <= b < after.len() && a != b implies #[trigger] after[a].0@
            != #[trigger] after[b].0@ by {
            if a < n && b < n {
                assert(after[a] == before[a] && after[b] == before[b]);
            } else if a < n {
                assert(after[a] == before[a]);
            } else {
                assert(after[b] == before[b]);
            }
        }
    }
    assert(entries_map(after) =~= entries_map(before).insert(k, v)) by {
        assert(after[n].0@ == k);
        assert forall|q: Seq<char>| has_key(after, q) <==> (has_key(before, q) || q == k) by {
            if has_key(after, q) && q != k {
                let a = choose|a: int| 0 <= a < after.len() && #[trigger] after[a].0@ == q;
                assert(a != n);
                assert(before[a].0@ == q);
            }
            if has_key(before, q) {
                let b = choose|b: int| 0 <= b < before.len() && #[trigger] before[b].0@ == q;
                assert(after[b].0@ == q);
            }
        }
        lemma_entry_in_map(after, n);
        assert forall|q: Seq<char>| #[trigger] has_key(after, q) && q != k implies entries_map(
            after,
        )[q] == entries_map(before)[q] by {
            let a = choose|a: int| 0 <= a < after.len() && #[trigger] after[a].0@ == q;
            assert(a != n);
            assert(after[a] == before[a]);
            lemma_entry_in_map(after, a);
            lemma_entry_in_map(before, a);
        }
    }
}

impl OidcStateMap {
    /// Each key occurs once.
    #[verifier::type_invariant]
    spec fn wf(&self) -> bool {
        keys_unique(self.entries@)
    }

    /// Every pending login still holds both of its secrets.
    pub open spec fn holds_fresh_states(&self) -> bool {
        forall|k: Seq<char>| #[trigger] self@.dom().contains(k) ==> self@[k].is_fresh()
    }

    /// An empty map.
    pub fn new() -> (map: OidcStateMap)
        ensures
            map@ == Map::<Seq<char>, OidcStateView>::empty(),
    {
        let map = OidcStateMap { entries: Vec::new() };
        assert(map@ =~= Map::<Seq<char>, OidcStateView>::empty());
        map
    }

    /// Whether a login is pending under `key`.
    pub fn contains_key(&self, key: &String) -> (found: bool)
        ensures
            found == self@.dom().contains(key@),
    {
        find_entry(&self.entries, key).is_some()
    }

    /// Records `state` under `key`, returning what was recorded there before.
    pub fn insert(&mut self, key: String, state: OidcState) -> (previous: Option<OidcState>)
        ensures
            final(self)@ == old(self)@.insert(key@, state@),
            match previous {
                Some(p) => old(self)@.dom().contains(key@) && p@ == old(self)@[key@],
                None => !old(self)@.dom().contains(key@),
            },
    {
        proof {
            use_type_invariant(&*self);
        }
        let mut entries: Vec<(String, OidcState)> = Vec::new();
        std::mem::swap(&mut entries, &mut self.entries);
        assert(entries@ == old(self).entries@);
        let previous = match find_entry(&entries, &key) {
            Some(i) => {
                let entry = remove_entry(&mut entries, i);
                Some(entry.1)
            },
            None => {
                assert(entries_map(entries@) =~= entries_map(entries@).remove(key@));
                None
            },
        };
        push_entry(&mut entries, key, state);
        self.entries = entries;
        previous
    }

    /// Takes the entry recorded under `key` out of the map.
    pub fn remove(&mut self, key: &String) -> (removed: Option<OidcState>)
        ensures
            final(self)@ == old(self)@.remove(key@),
            match removed {
                Some(s) => old(self)@.dom().contains(key@) && s@ == old(self)@[key@],
                None => !old(self)@.dom().contains(key@),
            },
    {
        proof {
            use_type_invariant(&*self);
        }
        match find_entry(&self.entries, key) {
            Some(i) => {
                let mut entries: Vec<(String, OidcState)> = Vec::new();
                std::mem::swap(&mut entries, &mut self.entries);
                assert(entries@ == old(self).entries@);
                let entry = remove_entry(&mut entries, i);
                self.entries = entries;
                Some(entry.1)
            },
            None => {
                assert(self@ =~= self@.remove(key@));
                None
            },
        }
    }
}

} // verus!
