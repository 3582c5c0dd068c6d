use vstd::prelude::*;
use crate::address::{Address, AddressV};

verus! {

/// Mathematical contents of a list of address/buffer entries, read as a map.
/// A later entry for the same address overrides an earlier one.
spec fn entries_map(s: Seq<(Address, Vec<u8>)>) -> Map<AddressV, Seq<u8>>
    decreases s.len(),
{
    if s.len() == 0 {
        Map::empty()
    } else {
        entries_map(s.drop_last()).insert(s.last().0@, s.last().1@)
    }
}

/// No two entries carry the same address.
spec fn unique_keys(s: Seq<(Address, Vec<u8>)>) -> bool {
    forall|i: int, j: int| 0 <= i < j < s.len() ==> s[i].0@ != s[j].0@
}

proof fn lemma_entries_map_domain(s: Seq<(Address, Vec<u8>)>)
    ensures
        forall|a: AddressV|
            #[trigger] entries_map(s).contains_key(a)
                <==> exists|i: int| 0 <= i < s.len() && #[trigger] s[i].0@ == a,
    decreases s.len(),
{
    if s.len() > 0 {
        lemma_entries_map_domain(s.drop_last());
        assert forall|a: AddressV| #[trigger] entries_map(s).contains_key(a)
            implies exists|i: int| 0 <= i < s.len() && #[trigger] s[i].0@ == a by {
            if a == s.last().0@ {
                assert(s[s.len() - 1].0@ == a);
            } else {
                assert(entries_map(s.drop_last()).contains_key(a));
                let i = choose|i: int| 0 <= i < s.drop_last().len() && #[trigger] s.drop_last()[i].0@ == a;
                assert(s.drop_last()[i] == s[i]);
                assert(s[i].0@ == a);
            }
        }
        assert forall|a: AddressV|
            exists|i: int| 0 <= i < s.len() && #[trigger] s[i].0@ == a
            implies #[trigger] entries_map(s).contains_key(a) by {
            let i = choose|i: int| 0 <= i < s.len() && #[trigger] s[i].0@ == a;
            if i < s.len() - 1 {
                assert(s.drop_last()[i].0@ == a);
                assert(exists|j: int|
                    0 <= j < s.drop_last().len() && #[trigger] s.drop_last()[j].0@ == a);
                assert(entries_map(s.drop_last()).contains_key(a));
            } else {
                assert(a == s.last().0@);
            }
        }
    }
}

proof fn lemma_entries_map_index(s: Seq<(Address, Vec<u8>)>, i: int)
    requires
        unique_keys(s),
        0 <= i < s.len(),
    ensures
        entries_map(s).contains_key(s[i].0@),
        entries_map(s)[s[i].0@] == s[i].1@,
    decreases s.len(),
{
    if i < s.len() - 1 {
        assert(s[i].0@ != s.last().0@);
        assert(s.drop_last()[i] == s[i]);
        lemma_entries_map_index(s.drop_last(), i);
    }
}

proof fn lemma_entries_map_remove(s: Seq<(Address, Vec<u8>)>, i: int)
    requires
        unique_keys(s),
        0 <= i < s.len(),
    ensures
        entries_map(s.remove(i)) == entries_map(s).remove(s[i].0@),
    decreases s.len(),
{
    let key = s[i].0@;
    if i == s.len() - 1 {
        assert(s.remove(i) =~= s.drop_last());
        lemma_entries_map_domain(s.drop_last());
        assert forall|j: int| 0 <= j < s.drop_last().len()
            implies #[trigger] s.drop_last()[j].0@ != key by {
            assert(s[j].0@ != s[s.len() - 1].0@);
        }
        assert(!entries_map(s.drop_last()).contains_key(key));
        assert(entries_map(s).remove(key) =~= entries_map(s.drop_last()));
    } else {
        assert(s.remove(i).last() == s.last());
        assert(s.remove(i).drop_last() =~= s.drop_last().remove(i));
        assert(unique_keys(s.drop_last())) by {
            assert forall|p: int, q: int| 0 <= p < q < s.drop_last().len()
                implies #[trigger] s.drop_last()[p].0@ != #[trigger] s.drop_last()[q].0@ by {
                assert(s[p].0@ != s[q].0@);
            }
        }
        assert(s.drop_last()[i] == s[i]);
        lemma_entries_map_remove(s.drop_last(), i);
        assert(s[i].0@ != s.last().0@);
        assert(entries_map(s.drop_last()).remove(key).insert(s.last().0@, s.last().1@)
            =~= entries_map(s.drop_last()).insert(s.last().0@, s.last().1@).remove(key));
        assert(entries_map(s.remove(i))
            == entries_map(s.drop_last().remove(i)).insert(s.last().0@, s.last().1@));
    }
}

fn find_index(entries: &Vec<(Address, Vec<u8>)>, addr: &Address) -> (r: Option<usize>)
    ensures
        match r {
            Some(i) => 0 <= i < entries@.len() && entries@[i as int].0@ == addr@,
            None => forall|j: int| 0 <= j < entries@.len() ==> entries@[j].0@ != addr@,
        },
{
    let mut i: usize = 0;
    while i < entries.len()
        invariant
            0 <= i <= entries@.len(),
            forall|j: int| 0 <= j < i ==> entries@[j].0@ != addr@,
        decreases entries@.len() - i,
    {
        if entries[i].0.equals(addr) {
            return Some(i);
        }
        i += 1;
    }
    None
}

/// A mapping from peer addresses to owned byte buffers, with at most one
/// entry per address. The single source of truth per peer address inside the
/// in-memory stores; all mutation passes through its methods.
#[derive(Debug)]
pub struct AddressMap {
    entries: Vec<(Address, Vec<u8>)>,
}

impl View for AddressMap {
    type V = Map<AddressV, Seq<u8>>;

    closed spec fn view(&self) -> Map<AddressV, Seq<u8>> {
        entries_map(self.entries@)
    }
}

impl AddressMap {
    #[verifier::type_invariant]
    closed spec fn wf(&self) -> bool {
        unique_keys(self.entries@)
    }

    /// An empty mapping.
    pub fn new() -> (r: AddressMap)
        ensures
            r@ == Map::<AddressV, Seq<u8>>::empty(),
    {
        AddressMap { entries: Vec::new() }
    }

    /// The buffer recorded for `addr`, if any.
    pub fn get(&self, addr: &Address) -> (r: Option<&Vec<u8>>)
        ensures
            match r {
                Some(v) => self@.contains_key(addr@) && v@ == self@[addr@],
                None => !self@.contains_key(addr@),
            },
    {
        proof {
            use_type_invariant(self);
        }
        match find_index(&self.entries, addr) {
            Some(i) => {
                proof {
                    lemma_entries_map_index(self.entries@, i as int);
                }
                Some(&self.entries[i].1)
            },
            None => {
                proof {
                    lemma_entries_map_domain(self.entries@);
                }
                None
            },
        }
    }

    /// Whether a buffer is recorded for `addr`.
    pub fn contains(&self, addr: &Address) -> (r: bool)
        ensures
            r == self@.contains_key(addr@),
    {
        match self.get(addr) {
            Some(_) => true,
            None => false,
        }
    }

    /// Records `value` for `addr`, replacing any prior entry.
    pub fn insert(&mut self, addr: Address, value: Vec<u8>)
        ensures
            final(self)@ == old(self)@.insert(addr@, value@),
    {
        proof {
            use_type_invariant(&*self);
        }
        let mut entries: Vec<(Address, Vec<u8>)> = Vec::new();
        core::mem::swap(&mut entries, &mut self.entries);
        let ghost s0 = entries@;
        match find_index(&entries, &addr) {
            Some(i) => {
                proof {
                    lemma_entries_map_remove(s0, i as int);
                    lemma_entries_map_domain(s0.remove(i as int));
                }
                entries.remove(i);
                let ghost s1 = entries@;
                proof {
                    assert(unique_keys(s1)) by {
                        assert forall|p: int, q: int| 0 <= p < q < s1.len()
                            implies #[trigger] s1[p].0@ != #[trigger] s1[q].0@ by {
                            let p0 = if p < i { p } else { p + 1 };
                            let q0 = if q < i { q } else { q + 1 };
                            assert(s1[p] == s0[p0] && s1[q] == s0[q0]);
                        }
                    }
                    assert forall|j: int| 0 <= j < s1.len()
                        implies #[trigger] s1[j].0@ != addr@ by {
                        let j0 = if j < i { j } else { j + 1 };
                        assert(s1[j] == s0[j0]);
                        assert(s0[j0].0@ != s0[i as int].0@);
                    }
                }
                entries.push((addr, value));
                proof {
                    assert(entries@.drop_last() =~= s1);
                    assert(entries_map(entries@)
                        == entries_map(s0).remove(s0[i as int].0@).insert(addr@, value@));
                    assert(entries_map(s0).remove(addr@).insert(addr@, value@)
                        =~= entries_map(s0).insert(addr@, value@));
                    assert(unique_keys(entries@)) by {
                        assert forall|p: int, q: int| 0 <= p < q < entries@.len()
                            implies #[trigger] entries@[p].0@ != #[trigger] entries@[q].0@ by {
                            if q < entries@.len() - 1 {
                                assert(entries@[p] == s1[p] && entries@[q] == s1[q]);
                            } else {
                                assert(entries@[p] == s1[p]);
                            }
                        }
                    }
                }
            },
            None => {
                entries.push((addr, value));
                proof {
                    assert(entries@.drop_last() =~= s0);
                    assert(entries_map(entries@) == entries_map(s0).insert(addr@, value@));
                    assert(unique_keys(entries@)) by {
                        assert forall|p: int, q: int| 0 <= p < q < entries@.len()
                            implies #[trigger] entries@[p].0@ != #[trigger] entries@[q].0@ by {
                            if q < entries@.len() - 1 {
                                assert(entries@[p] == s0[p] && entries@[q] == s0[q]);
                            } else {
                                assert(entries@[p] == s0[p]);
                            }
                        }
                    }
                }
            },
        }
        self.entries = entries;
    }

    /// Removes the entry for `addr`, if one exists; removing an absent entry
    /// leaves the mapping unchanged.
    pub fn remove(&mut self, addr: &Address)
        ensures
            final(self)@ == old(self)@.remove(addr@),
    {
        proof {
            use_type_invariant(&*self);
        }
        let mut entries: Vec<(Address, Vec<u8>)> = Vec::new();
        core::mem::swap(&mut entries, &mut self.entries);
        let ghost s0 = entries@;
        match find_index(&entries, addr) {
            Some(i) => {
                proof {
                    lemma_entries_map_remove(s0, i as int);
                }
                entries.remove(i);
                proof {
                    assert(unique_keys(entries@)) by {
                        assert forall|p: int, q: int| 0 <= p < q < entries@.len()
                            implies #[trigger] entries@[p].0@ != #[trigger] entries@[q].0@ by {
                            let p0 = if p < i { p } else { p + 1 };
                            let q0 = if q < i { q } else { q + 1 };
                            assert(entries@[p] == s0[p0] && entries@[q] == s0[q0]);
                        }
                    }
                }
            },
            None => {
                proof {
                    lemma_entries_map_domain(s0);
                    assert(!entries_map(s0).contains_key(addr@));
                    assert(entries_map(s0).remove(addr@) =~= entries_map(s0));
                }
            },
        }
        self.entries = entries;
    }
}

} // verus!
