//! A small table keyed by seat name, holding at most one entry per seat.
use vstd::prelude::*;

verus! {

/// True when no two entries carry the same seat name.
pub open spec fn names_unique<T>(e: Seq<(String, T)>) -> bool {
    forall|i: int, j: int|
        0 <= i < e.len() && 0 <= j < e.len() && i != j ==> #[trigger] e[i].0@ != #[trigger] e[j].0@
}

/// True when some entry carries seat name `s`.
pub open spec fn names_contain<T>(e: Seq<(String, T)>, s: Seq<char>) -> bool {
    exists|i: int| 0 <= i < e.len() && #[trigger] e[i].0@ == s
}

/// The map from seat name to value that a list of entries stands for.
pub open spec fn entries_map<T>(e: Seq<(String, T)>) -> Map<Seq<char>, T> {
    Map::new(
        |s: Seq<char>| names_contain(e, s),
        |s: Seq<char>| e[choose|i: int| 0 <= i < e.len() && #[trigger] e[i].0@ == s].1,
    )
}

proof fn lemma_entry_in_map<T>(e: Seq<(String, T)>, i: int)
    requires
        names_unique(e),
        0 <= i < e.len(),
    ensures
        entries_map(e).contains_key(e[i].0@),
        entries_map(e)[e[i].0@] == e[i].1,
{
    let s = e[i].0@;
    assert(names_contain(e, s));
    let j = choose|j: int| 0 <= j < e.len() && #[trigger] e[j].0@ == s;
    assert(j == i);
}

proof fn lemma_map_has_entry<T>(e: Seq<(String, T)>, s: Seq<char>) -> (i: int)
    requires
        names_unique(e),
        entries_map(e).contains_key(s),
    ensures
        0 <= i < e.len(),
        e[i].0@ == s,
        entries_map(e)[s] == e[i].1,
{
    let i = choose|i: int| 0 <= i < e.len() && #[trigger] e[i].0@ == s;
    lemma_entry_in_map(e, i);
    i
}

/// At most one value per seat, looked up by the seat's name.
pub struct SeatTable<T> {
    entries: Vec<(String, T)>,
}

impl<T> View for SeatTable<T> {
    type V = Map<Seq<char>, T>;

    closed spec fn view(&self) -> Map<Seq<char>, T> {
        entries_map(self.entries@)
    }
}

impl<T: Copy> SeatTable<T> {
    /// The table's invariant: one entry per seat name.
    pub closed spec fn wf(&self) -> bool {
        names_unique(self.entries@)
    }

    /// An empty table.
    pub fn new() -> (r: Self)
        ensures
            r.wf(),
            r@ == Map::<Seq<char>, T>::empty(),
    {
        let r = SeatTable { entries: Vec::new() };
        assert(r@ =~= Map::<Seq<char>, T>::empty());
        r
    }

    fn find(&self, seat: &String) -> (r: Option<usize>)
        requires
            self.wf(),
        ensures
            match r {
                Some(i) => i < self.entries@.len() && self.entries@[i as int].0@ == seat@,
                None => !names_contain(self.entries@, seat@),
            },
    {
        let mut i: usize = 0;
        while i < self.entries.len()
            invariant
                i <= self.entries@.len(),
                forall|k: int| 0 <= k < i ==> #[trigger] self.entries@[k].0@ != seat@,
            decreases self.entries@.len() - i,
        {
            if self.entries[i].0 == *seat {
                return Some(i);
            }
            i = i + 1;
        }
        None
    }

    /// The value held for `seat`, if any.
    pub fn get(&self, seat: &String) -> (r: Option<T>)
        requires
            self.wf(),
        ensures
            r == (if self@.contains_key(seat@) {
                Some(self@[seat@])
            } else {
                None
            }),
    {
        match self.find(seat) {
            Some(i) => {
                proof {
                    lemma_entry_in_map(self.entries@, i as int);
                }
                Some(self.entries[i].1)
            },
            None => None,
        }
    }

    /// Whether `seat` has an entry.
    pub fn contains(&self, seat: &String) -> (r: bool)
        requires
            self.wf(),
        ensures
            r == self@.contains_key(seat@),
    {
        self.find(seat).is_some()
    }

    /// Sets the value held for `seat`, adding an entry where it had none.
    pub fn insert(&mut self, seat: &String, value: T)
        requires
            old(self).wf(),
        ensures
            final(self).wf(),
            final(self)@ == old(self)@.insert(seat@, value),
    {
        let ghost e0 = self.entries@;
        match self.find(seat) {
            Some(i) => {
                self.entries.set(i, (seat.clone(), value));
                let ghost e1 = self.entries@;
                assert(names_unique(e1)) by {
                    assert forall|a: int, b: int|
                        0 <= a < e1.len() && 0 <= b < e1.len() && a != b implies #[trigger] e1[a].0@
                        != #[trigger] e1[b].0@ by {
                        if a != i && b != i {
                            assert(e1[a] == e0[a] && e1[b] == e0[b]);
                        } else if a == i {
                            assert(e0[b].0@ != e0[a].0@);
                        } else {
                            assert(e0[a].0@ != e0[b].0@);
                        }
                    }
                }
                assert(entries_map(e1) =~= entries_map(e0).insert(seat@, value)) by {
                    lemma_entry_in_map(e1, i as int);
                    assert forall|s: Seq<char>|
                        s != seat@ implies #[trigger] entries_map(e1).contains_key(s)
                        == entries_map(e0).contains_key(s) && (entries_map(e1).contains_key(s)
                        ==> entries_map(e1)[s] == entries_map(e0)[s]) by {
                        if entries_map(e0).contains_key(s) {
                            let j = lemma_map_has_entry(e0, s);
                            assert(e1[j] == e0[j]);
                            lemma_entry_in_map(e1, j);
                        }
                        if entries_map(e1).contains_key(s) {
                            let j = lemma_map_has_entry(e1, s);
                            assert(e1[j] == e0[j]);
                            lemma_entry_in_map(e0, j);
                        }
                    }
                }
            },
            None => {
                self.entries.push((seat.clone(), value));
                let ghost e1 = self.entries@;
                let ghost n = e0.len() as int;
                assert(names_unique(e1)) by {
                    assert forall|a: int, b: int|
                        0 <= a < e1.len() && 0 <= b < e1.len() && a != b implies #[trigger] e1[a].0@
                        != #[trigger] e1[b].0@ by {
                        if a != n && b != n {
                            assert(e1[a] == e0[a] && e1[b] == e0[b]);
                        } else if a == n {
                            assert(e0[b] == e1[b]);
                        } else {
                            assert(e0[a] == e1[a]);
                        }
                    }
                }
                assert(entries_map(e1) =~= entries_map(e0).insert(seat@, value)) by {
                    lemma_entry_in_map(e1, n);
                    assert forall|s: Seq<char>|
                        s != seat@ implies #[trigger] entries_map(e1).contains_key(s)
                        == entries_map(e0).contains_key(s) && (entries_map(e1).contains_key(s)
                        ==> entries_map(e1)[s] == entries_map(e0)[s]) by {
                        if entries_map(e0).contains_key(s) {
                            let j = lemma_map_has_entry(e0, s);
                            assert(e1[j] == e0[j]);
                            lemma_entry_in_map(e1, j);
                        }
                        if entries_map(e1).contains_key(s) {
                            let j = lemma_map_has_entry(e1, s);
                            assert(e1[j] == e0[j]);
                            lemma_entry_in_map(e0, j);
                        }
                    }
                }
            },
        }
    }

    /// Drops the entry of `seat`; tells whether there was one.
    pub fn remove(&mut self, seat: &String) -> (r: bool)
        requires
            old(self).wf(),
        ensures
            final(self).wf(),
            final(self)@ == old(self)@.remove(seat@),
            r == old(self)@.contains_key(seat@),
    {
        let ghost e0 = self.entries@;
        match self.find(seat) {
            Some(i) => {
                proof {
                    lemma_entry_in_map(e0, i as int);
                }
                self.entries.remove(i);
                let ghost e1 = self.entries@;
                assert(forall|k: int| 0 <= k < e1.len() ==> #[trigger] e1[k] == e0[if k < i {
                    k
                } else {
                    k + 1
                }]);
                assert(names_unique(e1)) by {
                    assert forall|a: int, b: int|
                        0 <= a < e1.len() && 0 <= b < e1.len() && a != b implies #[trigger] e1[a].0@
                        != #[trigger] e1[b].0@ by {
                        let a0 = if a < i {
                            a
                        } else {
                            a + 1
                        };
                        let b0 = if b < i {
                            b
                        } else {
                            b + 1
                        };
                        assert(e1[a] == e0[a0] && e1[b] == e0[b0]);
                    }
                }
                assert(entries_map(e1) =~= entries_map(e0).remove(seat@)) by {
                    if entries_map(e1).contains_key(seat@) {
                        let j = lemma_map_has_entry(e1, seat@);
                        let j0 = if j < i {
                            j
                        } else {
                            j + 1
                        };
                        assert(e1[j] == e0[j0]);
                    }
                    assert forall|s: Seq<char>|
                        s != seat@ implies #[trigger] entries_map(e1).contains_key(s)
                        == entries_map(e0).contains_key(s) && (entries_map(e1).contains_key(s)
                        ==> entries_map(e1)[s] == entries_map(e0)[s]) by {
                        if entries_map(e0).contains_key(s) {
                            let j = lemma_map_has_entry(e0, s);
                            assert(j != i);
                            let j1 = if j < i {
                                j
                            } else {
                                j - 1
                            };
                            assert(e1[j1] == e0[j]);
                            lemma_entry_in_map(e1, j1);
                        }
                        if entries_map(e1).contains_key(s) {
                            let j = lemma_map_has_entry(e1, s);
                            let j0 = if j < i {
                                j
                            } else {
                                j + 1
                            };
                            assert(e1[j] == e0[j0]);
                            lemma_entry_in_map(e0, j0);
                        }
                    }
                }
                true
            },
            None => {
                assert(entries_map(e0) =~= entries_map(e0).remove(seat@));
                false
            },
        }
    }
}

} // verus!
