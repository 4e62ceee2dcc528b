//! A parsed address: a mapping from component label to value.

use vstd::prelude::*;

verus! {

/// The pairs of an entry list, as character sequences.
pub open spec fn pair_views(e: Seq<(String, String)>) -> Seq<(Seq<char>, Seq<char>)> {
    e.map_values(|p: (String, String)| (p.0@, p.1@))
}

/// No label occurs twice among the entries.
pub open spec fn keys_distinct(e: Seq<(String, String)>) -> bool {
    forall|i: int, j: int|
        0 <= i < e.len() && 0 <= j < e.len() && i != j ==> #[trigger] e[i].0@ != #[trigger] e[j].0@
}

/// Whether some entry has label `k`.
pub open spec fn has_key(e: Seq<(String, String)>, k: Seq<char>) -> bool {
    exists|i: int| 0 <= i < e.len() && #[trigger] e[i].0@ == k
}

/// The mapping that an entry list stands for.
pub open spec fn entries_map(e: Seq<(String, String)>) -> Map<Seq<char>, Seq<char>> {
    Map::new(
        |k: Seq<char>| has_key(e, k),
        |k: Seq<char>| e[choose|i: int| 0 <= i < e.len() && #[trigger] e[i].0@ == k].1@,
    )
}

/// The components of a parsed address, each label at most once. The order of
/// the entries carries no meaning beyond how the mapping is written out.
#[derive(Debug)]
pub struct ParsedAddress {
    entries: Vec<(String, String)>,
}

impl View for ParsedAddress {
    type V = Map<Seq<char>, Seq<char>>;

    open spec fn view(&self) -> Map<Seq<char>, Seq<char>> {
        entries_map(self.entry_seq())
    }
}

impl ParsedAddress {
    /// The entries, in the order in which they are kept.
    pub closed spec fn entry_seq(&self) -> Seq<(String, String)> {
        self.entries@
    }

    /// The entries as character sequences.
    pub open spec fn pairs(&self) -> Seq<(Seq<char>, Seq<char>)> {
        pair_views(self.entry_seq())
    }

    /// No label occurs twice.
    pub open spec fn wf(&self) -> bool {
        keys_distinct(self.entry_seq())
    }

    /// Wraps entries whose labels are unique.
    pub(crate) fn from_distinct(entries: Vec<(String, String)>) -> (r: ParsedAddress)
        requires
            keys_distinct(entries@),
        ensures
            r.wf(),
            r.entry_seq() == entries@,
    {
        ParsedAddress { entries }
    }

    /// The address with no component.
    pub fn new() -> (r: ParsedAddress)
        ensures
            r.wf(),
            r@ == Map::<Seq<char>, Seq<char>>::empty(),
            r.entry_seq().len() == 0,
    {
        let r = ParsedAddress { entries: Vec::new() };
        assert(r@ =~= Map::<Seq<char>, Seq<char>>::empty());
        r
    }

    /// The number of components.
    pub fn len(&self) -> (r: usize)
        requires
            self.wf(),
        ensures
            r == self.entry_seq().len(),
            r == self@.len(),
    {
        proof { self.lemma_finite(); }
        self.entries.len()
    }

    /// The mapping of a parsed address is finite, with one label for each
    /// entry.
    pub proof fn lemma_finite(&self)
        requires
            self.wf(),
        ensures
            self@.len() == self.entry_seq().len(),
            self@.dom().finite(),
    {
        let e = self.entry_seq();
        let keys = e.map_values(|p: (String, String)| p.0@);
        assert forall|i: int, j: int| 0 <= i < keys.len() && 0 <= j < keys.len() && i != j
            implies keys[i] != keys[j] by {
            assert(e[i].0@ != e[j].0@);
        }
        assert(keys.no_duplicates());
        assert(self@.dom() =~= keys.to_set()) by {
            assert forall|k: Seq<char>| self@.dom().contains(k) implies keys.to_set().contains(k) by {
                let i = choose|i: int| 0 <= i < e.len() && #[trigger] e[i].0@ == k;
                assert(keys[i] == k);
            }
            assert forall|k: Seq<char>| keys.to_set().contains(k) implies self@.dom().contains(k) by {
                let i = choose|i: int| 0 <= i < keys.len() && keys[i] == k;
                assert(e[i].0@ == k);
            }
        }
        keys.unique_seq_to_set();
    }

    /// The entries, in the order in which they are kept.
    pub fn entries(&self) -> (r: &Vec<(String, String)>)
        ensures
            r@ == self.entry_seq(),
    {
        &self.entries
    }

    /// The value of component `label`, if the address has it.
    pub fn get(&self, label: &str) -> (r: Option<&String>)
        requires
            self.wf(),
        ensures
            match r {
                Some(v) => self@.contains_key(label@) && self@[label@] == v@,
                None => !self@.contains_key(label@),
            },
    {
        let wanted = String::from_str(label);
        let mut i: usize = 0;
        while i < self.entries.len()
            invariant
                self.wf(),
                i <= self.entries@.len(),
                wanted@ == label@,
                forall|j: int| 0 <= j < i ==> #[trigger] self.entries@[j].0@ != label@,
            decreases self.entries@.len() - i,
        {
            if self.entries[i].0 == wanted {
                let ghost e = self.entries@;
                assert(e[i as int].0@ == label@);
                let ghost c = choose|j: int| 0 <= j < e.len() && #[trigger] e[j].0@ == label@;
                assert(c == i);
                return Some(&self.entries[i].1);
            }
            i = i + 1;
        }
        None
    }

    /// Sets component `label` to `value`, replacing any earlier value.
    pub fn insert(&mut self, label: String, value: String)
        requires
            old(self).wf(),
        ensures
            final(self).wf(),
            final(self)@ == old(self)@.insert(label@, value@),
    {
        let ghost before = self@;
        let mut i: usize = 0;
        while i < self.entries.len()
            invariant
                self.wf(),
                self@ == before,
                before == old(self)@,
                i <= self.entries@.len(),
                forall|j: int| 0 <= j < i ==> #[trigger] self.entries@[j].0@ != label@,
            decreases self.entries@.len() - i,
        {
            if self.entries[i].0 == label {
                let ghost e = self.entries@;
                assert(e[i as int].0@ == label@);
                assert(before == entries_map(e));
                let ghost (lv, vv) = (label@, value@);
                self.entries.set(i, (label, value));
                let ghost e2 = self.entries@;
                assert(e2[i as int].1@ == vv);
                assert(e2[i as int].0@ == label@);
                assert(before.dom().contains(label@));
                assert(keys_distinct(e2)) by {
                    assert forall|a: int, b: int|
                        0 <= a < e2.len() && 0 <= b < e2.len() && a != b implies
                        #[trigger] e2[a].0@ != #[trigger] e2[b].0@ by {
                        assert(e[a].0@ != e[b].0@);
                    }
                }
                assert(entries_map(e2) =~= before.insert(e[i as int].0@, e2[i as int].1@)) by {
                    assert forall|k: Seq<char>| #[trigger] has_key(e2, k) == has_key(e, k) || k == e[i as int].0@ by {
                        if has_key(e2, k) {
                            let a = choose|a: int| 0 <= a < e2.len() && #[trigger] e2[a].0@ == k;
                            assert(e[a].0@ == k);
                        }
                        if has_key(e, k) {
                            let a = choose|a: int| 0 <= a < e.len() && #[trigger] e[a].0@ == k;
                            assert(e2[a].0@ == k);
                        }
                    }
                    assert forall|k: Seq<char>| has_key(e2, k) implies
                        #[trigger] entries_map(e2)[k] == before.insert(e[i as int].0@, e2[i as int].1@)[k] by {
                        let a = choose|a: int| 0 <= a < e2.len() && #[trigger] e2[a].0@ == k;
                        assert(e[a].0@ == k);
                        if k != e[i as int].0@ {
                            let b = choose|b: int| 0 <= b < e.len() && #[trigger] e[b].0@ == k;
                            assert(a == b);
                        } else {
                            assert(e2[i as int].0@ == k);
                            assert(a == i);
                        }
                    }
                }
                assert(self@ == before.insert(lv, vv));
                return;
            }
            i = i + 1;
        }
        let ghost e = self.entries@;
        self.entries.push((label, value));
        let ghost e2 = self.entries@;
        let ghost n = e.len() as int;
        assert(keys_distinct(e2)) by {
            assert forall|a: int, b: int|
                0 <= a < e2.len() && 0 <= b < e2.len() && a != b implies
                #[trigger] e2[a].0@ != #[trigger] e2[b].0@ by {
                if a < n && b < n {
                    assert(e[a].0@ != e[b].0@);
                } else if a < n {
                    assert(e[a].0@ != label@);
                } else {
                    assert(e[b].0@ != label@);
                }
            }
        }
        assert(entries_map(e2) =~= before.insert(e2[n].0@, e2[n].1@)) by {
            assert forall|k: Seq<char>| #[trigger] has_key(e2, k) == (has_key(e, k) || k == e2[n].0@) by {
                if has_key(e2, k) {
                    let a = choose|a: int| 0 <= a < e2.len() && #[trigger] e2[a].0@ == k;
                    if a < n {
                        assert(e[a].0@ == k);
                    }
                }
                if has_key(e, k) {
                    let a = choose|a: int| 0 <= a < e.len() && #[trigger] e[a].0@ == k;
                    assert(e2[a].0@ == k);
                }
            }
            assert forall|k: Seq<char>| has_key(e2, k) implies
                #[trigger] entries_map(e2)[k] == before.insert(e2[n].0@, e2[n].1@)[k] by {
                let a = choose|a: int| 0 <= a < e2.len() && #[trigger] e2[a].0@ == k;
                if a < n {
                    assert(e[a].0@ == k);
                    let b = choose|b: int| 0 <= b < e.len() && #[trigger] e[b].0@ == k;
                    assert(e2[b].0@ == k);
                    assert(a == b);
                }
            }
        }
    }
}

} // verus!
