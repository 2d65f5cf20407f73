//! The client-side registry of injected stylesheets: identifier to last-seen
//! source text, with unique identifiers. Its mathematical content is a map
//! from identifier to source.

use vstd::prelude::*;

verus! {

/// What an association list of (identifier, source) pairs says, later pairs
/// winning.
pub open spec fn pairs_map(s: Seq<(String, String)>) -> Map<Seq<char>, Seq<char>>
    decreases s.len(),
{
    if s.len() == 0 {
        Map::empty()
    } else {
        pairs_map(s.drop_last()).insert(s.last().0@, s.last().1@)
    }
}

/// A key is in the map exactly when some pair carries it.
pub proof fn lemma_pairs_map_contains(s: Seq<(String, String)>, k: Seq<char>)
    ensures
        pairs_map(s).dom().contains(k) <==> exists|i: int| 0 <= i < s.len() && s[i].0@ == k,
    decreases s.len(),
{
    if s.len() > 0 {
        lemma_pairs_map_contains(s.drop_last(), k);
        if s.last().0@ == k {
            assert(s[s.len() - 1].0@ == k);
        } else if pairs_map(s).dom().contains(k) {
            let i = choose|i: int| 0 <= i < s.len() - 1 && s.drop_last()[i].0@ == k;
            assert(s[i].0@ == k);
        } else {
            assert forall|i: int| 0 <= i < s.len() implies s[i].0@ != k by {
                if i < s.len() - 1 {
                    assert(s.drop_last()[i].0@ == s[i].0@);
                }
            }
        }
    }
}

/// Whether the pairs of `s` carry pairwise distinct identifiers.
pub open spec fn unique_keys(s: Seq<(String, String)>) -> bool {
    forall|i: int, j: int| 0 <= i < j < s.len() ==> s[i].0@ != s[j].0@
}

/// Removing the pair at `i` removes exactly its key from the map, when keys
/// are unique.
pub proof fn lemma_pairs_map_remove_at(s: Seq<(String, String)>, i: int)
    requires
        unique_keys(s),
        0 <= i < s.len(),
    ensures
        pairs_map(s.remove(i)) =~= pairs_map(s).remove(s[i].0@),
    decreases s.len(),
{
    if i == s.len() - 1 {
        assert(s.remove(i) =~= s.drop_last());
        lemma_pairs_map_contains(s.drop_last(), s[i].0@);
        assert forall|j: int| 0 <= j < s.len() - 1 implies s.drop_last()[j].0@ != s[i].0@ by {
            assert(s[j].0@ == s.drop_last()[j].0@);
        }
        assert(!pairs_map(s.drop_last()).dom().contains(s[i].0@));
        assert(pairs_map(s.drop_last()) =~= pairs_map(s.drop_last()).insert(
            s[i].0@,
            s[i].1@,
        ).remove(s[i].0@));
    } else {
        assert(s.remove(i).drop_last() =~= s.drop_last().remove(i));
        assert(s.remove(i).last() == s.last());
        assert(forall|a: int, b: int|
            0 <= a < b < s.len() - 1 ==> s.drop_last()[a].0@ != s.drop_last()[b].0@);
        lemma_pairs_map_remove_at(s.drop_last(), i);
        assert(s.drop_last()[i] == s[i]);
        assert(s[i].0@ != s.last().0@);
        assert(pairs_map(s.remove(i)) == pairs_map(s.drop_last().remove(i)).insert(
            s.last().0@,
            s.last().1@,
        ));
    }
}

/// The client-side registry of injected stylesheets.
pub struct SheetRegistry {
    entries: Vec<(String, String)>,
}

impl SheetRegistry {
    /// Identifier-to-source map held by the registry.
    pub closed spec fn map(&self) -> Map<Seq<char>, Seq<char>> {
        pairs_map(self.entries@)
    }

    /// The set of registered identifiers.
    pub open spec fn ids(&self) -> Set<Seq<char>> {
        self.map().dom()
    }

    /// Internal consistency: identifiers are pairwise distinct.
    pub closed spec fn wf(&self) -> bool {
        unique_keys(self.entries@)
    }

    /// How many stylesheets are registered.
    pub closed spec fn spec_len(&self) -> nat {
        self.entries@.len()
    }

    /// An empty registry.
    pub fn new() -> (r: SheetRegistry)
        ensures
            r.wf(),
            r.map() =~= Map::<Seq<char>, Seq<char>>::empty(),
            r.spec_len() == 0,
    {
        SheetRegistry { entries: Vec::new() }
    }

    /// The position of `id`, if it is registered.
    fn find(&self, id: &String) -> (r: Option<usize>)
        requires
            self.wf(),
        ensures
            match r {
                Some(i) => i < self.entries@.len() && self.entries@[i as int].0@ == id@,
                None => forall|i: int| 0 <= i < self.entries@.len() ==> self.entries@[i].0@ != id@,
            },
    {
        let n = self.entries.len();
        let mut i: usize = 0;
        while i < n
            invariant
                n == self.entries@.len(),
                i <= n,
                forall|j: int| 0 <= j < i ==> self.entries@[j].0@ != id@,
            decreases n - i,
        {
            if self.entries[i].0.eq(id) {
                return Some(i);
            }
            i = i + 1;
        }
        None
    }

    /// Whether `id` is registered.
    pub fn contains(&self, id: &String) -> (r: bool)
        requires
            self.wf(),
        ensures
            r == self.ids().contains(id@),
    {
        proof {
            lemma_pairs_map_contains(self.entries@, id@);
        }
        match self.find(id) {
            Some(_) => true,
            None => false,
        }
    }

    /// Register `id` with source `css`, replacing any prior entry under `id`.
    pub fn upsert(&mut self, id: String, css: String)
        requires
            old(self).wf(),
        ensures
            final(self).wf(),
            final(self).map() =~= old(self).map().insert(id@, css@),
    {
        match self.find(&id) {
            Some(i) => {
                proof {
                    lemma_pairs_map_remove_at(self.entries@, i as int);
                }
                let ghost before = self.entries@;
                self.entries.remove(i);
                proof {
                    assert forall|a: int, b: int|
                        0 <= a < b < self.entries@.len() implies self.entries@[a].0@
                        != self.entries@[b].0@ by {
                        assert(self.entries@[a] == if a < i as int {
                            before[a]
                        } else {
                            before[a + 1]
                        });
                        assert(self.entries@[b] == if b < i as int {
                            before[b]
                        } else {
                            before[b + 1]
                        });
                    }
                }
                let ghost mid = self.entries@;
                self.entries.push((id, css));
                proof {
                    assert(self.entries@.drop_last() =~= mid);
                }
            },
            None => {
                let ghost before = self.entries@;
                self.entries.push((id, css));
                proof {
                    assert(self.entries@.drop_last() =~= before);
                    lemma_pairs_map_contains(before, self.entries@.last().0@);
                    assert(!pairs_map(before).dom().contains(self.entries@.last().0@));
                    assert forall|a: int, b: int|
                        0 <= a < b < self.entries@.len() implies self.entries@[a].0@
                        != self.entries@[b].0@ by {
                        if b < self.entries@.len() - 1 {
                            assert(before[a] == self.entries@[a]);
                        }
                    }
                }
            },
        }
    }

    /// Unregister `id`. Says whether it was registered; the map loses exactly
    /// `id`.
    pub fn remove(&mut self, id: &String) -> (r: bool)
        requires
            old(self).wf(),
        ensures
            final(self).wf(),
            r == old(self).ids().contains(id@),
            final(self).map() =~= old(self).map().remove(id@),
    {
        proof {
            lemma_pairs_map_contains(self.entries@, id@);
        }
        match self.find(id) {
            Some(i) => {
                proof {
                    lemma_pairs_map_remove_at(self.entries@, i as int);
                }
                let ghost before = self.entries@;
                self.entries.remove(i);
                proof {
                    assert forall|a: int, b: int|
                        0 <= a < b < self.entries@.len() implies self.entries@[a].0@
                        != self.entries@[b].0@ by {
                        assert(self.entries@[a] == if a < i as int {
                            before[a]
                        } else {
                            before[a + 1]
                        });
                        assert(self.entries@[b] == if b < i as int {
                            before[b]
                        } else {
                            before[b + 1]
                        });
                    }
                }
                true
            },
            None => {
                proof {
                    assert(self.map() =~= self.map().remove(id@));
                }
                false
            },
        }
    }

    /// Unregister everything.
    pub fn clear(&mut self)
        ensures
            final(self).wf(),
            final(self).map() =~= Map::<Seq<char>, Seq<char>>::empty(),
            final(self).spec_len() == 0,
    {
        self.entries.clear();
    }

    /// The registered identifiers, one copy each, in registration order.
    pub fn list(&self) -> (r: Vec<String>)
        requires
            self.wf(),
        ensures
            r@.len() == self.spec_len(),
            forall|i: int, j: int| 0 <= i < j < r@.len() ==> r@[i]@ != r@[j]@,
            forall|i: int| 0 <= i < r@.len() ==> self.ids().contains(#[trigger] r@[i]@),
            forall|k: Seq<char>| self.ids().contains(k) ==> exists|i: int|
                0 <= i < r@.len() && r@[i]@ == k,
    {
        let n = self.entries.len();
        let mut out: Vec<String> = Vec::new();
        let mut i: usize = 0;
        while i < n
            invariant
                self.wf(),
                n == self.entries@.len(),
                i <= n,
                out@.len() == i,
                forall|j: int| 0 <= j < i ==> out@[j]@ == self.entries@[j].0@,
            decreases n - i,
        {
            out.push(self.entries[i].0.clone());
            i = i + 1;
        }
        proof {
            assert forall|k: Seq<char>| self.ids().contains(k) implies exists|j: int|
                0 <= j < out@.len() && out@[j]@ == k by {
                lemma_pairs_map_contains(self.entries@, k);
                let j = choose|j: int| 0 <= j < self.entries@.len() && self.entries@[j].0@ == k;
                assert(out@[j]@ == k);
            }
            assert forall|j: int| 0 <= j < out@.len() implies self.ids().contains(
                #[trigger] out@[j]@,
            ) by {
                lemma_pairs_map_contains(self.entries@, out@[j]@);
            }
        }
        out
    }
}

} // verus!
