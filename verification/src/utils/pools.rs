//! The registry of connection pools, one per database name. A pool is made
//! the first time a database is asked for and handed out again afterwards.

use vstd::prelude::*;
use crate::utils::text::same_text;

verus! {

/// Connection pools keyed by database name; no name occurs twice.
pub struct ConnectionPools<P> {
    entries: Vec<(String, P)>,
}

impl<P> ConnectionPools<P> {
    #[verifier::type_invariant]
    spec fn names_distinct(&self) -> bool {
        forall|i: int, j: int|
            0 <= i < self.entries@.len() && 0 <= j < self.entries@.len() && i != j
                ==> #[trigger] self.entries@[i].0@ != #[trigger] self.entries@[j].0@
    }

    spec fn index_of(&self, name: Seq<char>) -> int {
        choose|i: int| 0 <= i < self.entries@.len() && self.entries@[i].0@ == name
    }

    /// The pools, as a map from database name to pool.
    pub closed spec fn view(&self) -> Map<Seq<char>, P> {
        Map::new(
            |name: Seq<char>|
                exists|i: int| 0 <= i < self.entries@.len() && self.entries@[i].0@ == name,
            |name: Seq<char>| self.entries@[self.index_of(name)].1,
        )
    }

    /// An empty registry.
    pub fn new() -> (r: Self)
        ensures
            r.view() == Map::<Seq<char>, P>::empty(),
    {
        let r = ConnectionPools { entries: Vec::new() };
        assert(r.view() =~= Map::<Seq<char>, P>::empty());
        r
    }

    /// Where `db_name` stands in the entries, if it does.
    fn find(&self, db_name: &str) -> (r: Option<usize>)
        ensures
            match r {
                Some(i) => i < self.entries@.len() && self.entries@[i as int].0@ == db_name@,
                None => forall|i: int|
                    0 <= i < self.entries@.len() ==> #[trigger] self.entries@[i].0@ != db_name@,
            },
    {
        let n = self.entries.len();
        for i in 0..n
            invariant
                n == self.entries@.len(),
                forall|k: int| 0 <= k < i ==> #[trigger] self.entries@[k].0@ != db_name@,
        {
            if same_text(&self.entries[i].0, db_name) {
                return Some(i);
            }
        }
        None
    }

    /// The pool registered for `db_name`, if there is one.
    pub fn get(&self, db_name: &str) -> (r: Option<&P>)
        ensures
            match r {
                Some(p) => self.view().contains_key(db_name@) && *p == self.view()[db_name@],
                None => !self.view().contains_key(db_name@),
            },
    {
        proof {
            use_type_invariant(self);
        }
        match self.find(db_name) {
            Some(i) => {
                proof {
                    let k = self.index_of(db_name@);
                    assert(0 <= k < self.entries@.len() && self.entries@[k].0@ == db_name@);
                    assert(k == i);
                }
                Some(&self.entries[i].1)
            },
            None => None,
        }
    }

    /// Registers `pool` for `db_name`, replacing the pool registered for it
    /// before, if any.
    pub fn insert(&mut self, db_name: String, pool: P)
        ensures
            final(self).view() == old(self).view().insert(db_name@, pool),
    {
        proof {
            use_type_invariant(&*self);
        }
        let ghost before = self.view();
        let found = self.find(db_name.as_str());
        let ghost old_entries = self.entries@;
        let mut entries: Vec<(String, P)> = Vec::new();
        std::mem::swap(&mut entries, &mut self.entries);
        let ghost at: int = match found {
            Some(i) => i as int,
            None => old_entries.len() as int,
        };
        let ghost key = db_name@;
        match found {
            Some(i) => {
                entries.set(i, (db_name, pool));
            },
            None => {
                entries.push((db_name, pool));
            },
        }
        proof {
            assert forall|i: int, j: int|
                0 <= i < entries@.len() && 0 <= j < entries@.len() && i != j
                    implies #[trigger] entries@[i].0@ != #[trigger] entries@[j].0@ by {
                if i != at && j != at {
                    assert(entries@[i] == old_entries[i] && entries@[j] == old_entries[j]);
                }
            }
        }
        self.entries = entries;
        proof {
            assert forall|name: Seq<char>|
                #[trigger] self.view().contains_key(name) == before.insert(key, pool).contains_key(
                    name,
                ) by {
                if before.contains_key(name) {
                    let k = choose|k: int| 0 <= k < old_entries.len() && old_entries[k].0@ == name;
                    assert(self.entries@[k].0@ == name || name == key);
                }
                if name == key {
                    assert(self.entries@[at].0@ == name);
                }
            }
            assert(self.view().dom() =~= before.insert(key, pool).dom());
            assert forall|name: Seq<char>| #[trigger]
                self.view().contains_key(name) implies self.view()[name] == before.insert(
                key,
                pool,
            )[name] by {
                let k = self.index_of(name);
                if name == key {
                    assert(self.entries@[at].0@ == name);
                    assert(k == at);
                } else {
                    let k0 = before_index(old_entries, name);
                    assert(self.entries@[k0].0@ == name);
                    assert(k == k0);
                }
            }
            assert(self.view() =~= before.insert(key, pool));
        }
    }
}

/// A pool registered for a database is what a later lookup of that database
/// gives back; a lookup of any other database gives what it gave before.
/// `after` is a registry as [`ConnectionPools::insert`] leaves `before`.
pub proof fn law_lookup_after_insert<P>(
    before: ConnectionPools<P>,
    after: ConnectionPools<P>,
    db_name: Seq<char>,
    pool: P,
    other: Seq<char>,
)
    requires
        after.view() == before.view().insert(db_name, pool),
    ensures
        after.view().contains_key(db_name),
        after.view()[db_name] == pool,
        other != db_name ==> after.view().contains_key(other) == before.view().contains_key(other),
        other != db_name && before.view().contains_key(other) ==> after.view()[other]
            == before.view()[other],
{
}

spec fn before_index<P>(entries: Seq<(String, P)>, name: Seq<char>) -> int {
    choose|i: int| 0 <= i < entries.len() && entries[i].0@ == name
}

} // verus!
