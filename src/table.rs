use vstd::prelude::*;

verus! {

/// Compares two 32-byte strings.
pub fn bytes32_eq(a: &[u8; 32], b: &[u8; 32]) -> (r: bool)
    ensures
        r == (a@ == b@),
{
    let mut i: usize = 0;
    while i < 32
        invariant
            i <= 32,
            a@.len() == 32,
            b@.len() == 32,
            forall|j: int| 0 <= j < i ==> a@[j] == b@[j],
        decreases 32 - i,
    {
        if a[i] != b[i] {
            return false;
        }
        i = i + 1;
    }
    assert(a@ =~= b@);
    true
}

pub(crate) struct Entry<V> {
    pub(crate) key: [u8; 32],
    pub(crate) value: V,
}

/// An in-memory map from 32-byte keys to values, kept as a list of entries
/// with distinct keys. Its view maps each key's bytes to the view of its
/// value.
#[verifier::reject_recursive_types(V)]
pub(crate) struct Table<V: View> {
    entries: Vec<Entry<V>>,
    model: Ghost<Map<Seq<u8>, V::V>>,
}

impl<V: View> View for Table<V> {
    type V = Map<Seq<u8>, V::V>;

    closed spec fn view(&self) -> Map<Seq<u8>, V::V> {
        self.model@
    }
}

impl<V: View> Table<V> {
    /// The keys are distinct and the entries are exactly the model.
    pub(crate) closed spec fn wf(&self) -> bool {
        &&& forall|i: int, j: int|
            0 <= i < j < self.entries@.len() ==> (#[trigger] self.entries@[i]).key@ != (
            #[trigger] self.entries@[j]).key@
        &&& forall|i: int|
            0 <= i < self.entries@.len() ==> {
                &&& self.model@.contains_key((#[trigger] self.entries@[i]).key@)
                &&& self.model@[self.entries@[i].key@] == self.entries@[i].value@
            }
        &&& forall|k: Seq<u8>| #[trigger]
            self.model@.contains_key(k) ==> exists|i: int|
                0 <= i < self.entries@.len() && (#[trigger] self.entries@[i]).key@ == k
    }

    pub(crate) fn new() -> (r: Self)
        ensures
            r.wf(),
            r@ == Map::<Seq<u8>, V::V>::empty(),
    {
        Table { entries: Vec::new(), model: Ghost(Map::empty()) }
    }

    fn find(&self, key: &[u8; 32]) -> (r: Option<usize>)
        requires
            self.wf(),
        ensures
            match r {
                Some(i) => i < self.entries@.len() && self.entries@[i as int].key@ == key@,
                None => !self@.contains_key(key@),
            },
    {
        let mut i: usize = 0;
        while i < self.entries.len()
            invariant
                self.wf(),
                i <= self.entries@.len(),
                forall|j: int| 0 <= j < i ==> (#[trigger] self.entries@[j]).key@ != key@,
            decreases self.entries@.len() - i,
        {
            if bytes32_eq(&self.entries[i].key, key) {
                return Some(i);
            }
            i = i + 1;
        }
        None
    }

    pub(crate) fn get(&self, key: &[u8; 32]) -> (r: Option<&V>)
        requires
            self.wf(),
        ensures
            match r {
                Some(v) => self@.contains_key(key@) && self@[key@] == v@,
                None => !self@.contains_key(key@),
            },
    {
        match self.find(key) {
            Some(i) => Some(&self.entries[i].value),
            None => None,
        }
    }

    pub(crate) fn contains(&self, key: &[u8; 32]) -> (r: bool)
        requires
            self.wf(),
        ensures
            r == self@.contains_key(key@),
    {
        self.find(key).is_some()
    }

    pub(crate) fn insert(&mut self, key: [u8; 32], value: V)
        requires
            old(self).wf(),
        ensures
            final(self).wf(),
            final(self)@ == old(self)@.insert(key@, value@),
    {
        let ghost new_model = self.model@.insert(key@, value@);
        match self.find(&key) {
            Some(i) => {
                self.entries.set(i, Entry { key, value });
                self.model = Ghost(new_model);
                assert forall|k: Seq<u8>| #[trigger] self.model@.contains_key(k) implies exists|
                    j: int,
                | 0 <= j < self.entries@.len() && (#[trigger] self.entries@[j]).key@ == k by {
                    if k != key@ {
                        assert(old(self).model@.contains_key(k));
                        let j = choose|j: int|
                            0 <= j < old(self).entries@.len() && (#[trigger] old(
                                self,
                            ).entries@[j]).key@ == k;
                        assert(self.entries@[j] == old(self).entries@[j]);
                    } else {
                        assert(self.entries@[i as int].key@ == k);
                    }
                }
            },
            None => {
                self.entries.push(Entry { key, value });
                self.model = Ghost(new_model);
                let ghost n = old(self).entries@.len();
                assert forall|a: int, b: int|
                    0 <= a < b < self.entries@.len() implies (#[trigger] self.entries@[a]).key@
                    != (#[trigger] self.entries@[b]).key@ by {
                    if b == n {
                        assert(old(self).model@.contains_key(old(self).entries@[a].key@));
                    } else {
                        assert(old(self).entries@[a] == self.entries@[a]);
                        assert(old(self).entries@[b] == self.entries@[b]);
                    }
                }
                assert forall|k: Seq<u8>| #[trigger] self.model@.contains_key(k) implies exists|
                    j: int,
                | 0 <= j < self.entries@.len() && (#[trigger] self.entries@[j]).key@ == k by {
                    if k != key@ {
                        assert(old(self).model@.contains_key(k));
                        let j = choose|j: int|
                            0 <= j < old(self).entries@.len() && (#[trigger] old(
                                self,
                            ).entries@[j]).key@ == k;
                        assert(self.entries@[j] == old(self).entries@[j]);
                    } else {
                        assert(self.entries@[n as int].key@ == k);
                    }
                }
            },
        }
    }

    pub(crate) fn remove(&mut self, key: &[u8; 32])
        requires
            old(self).wf(),
        ensures
            final(self).wf(),
            final(self)@ == old(self)@.remove(key@),
    {
        match self.find(key) {
            Some(i) => {
                let ghost old_entries = self.entries@;
                self.entries.remove(i);
                self.model = Ghost(self.model@.remove(key@));
                assert(self.entries@ =~= old_entries.remove(i as int));
                assert forall|a: int, b: int|
                    0 <= a < b < self.entries@.len() implies (#[trigger] self.entries@[a]).key@
                    != (#[trigger] self.entries@[b]).key@ by {
                    let oa = if a < i { a } else { a + 1 };
                    let ob = if b < i { b } else { b + 1 };
                    assert(self.entries@[a] == old_entries[oa]);
                    assert(self.entries@[b] == old_entries[ob]);
                }
                assert forall|a: int| 0 <= a < self.entries@.len() implies {
                    &&& self.model@.contains_key((#[trigger] self.entries@[a]).key@)
                    &&& self.model@[self.entries@[a].key@] == self.entries@[a].value@
                } by {
                    let oa = if a < i { a } else { a + 1 };
                    assert(self.entries@[a] == old_entries[oa]);
                    assert(old_entries[oa].key@ != old_entries[i as int].key@);
                }
                assert forall|k: Seq<u8>| #[trigger] self.model@.contains_key(k) implies exists|
                    j: int,
                | 0 <= j < self.entries@.len() && (#[trigger] self.entries@[j]).key@ == k by {
                    assert(old(self).model@.contains_key(k));
                    let oj = choose|j: int|
                        0 <= j < old_entries.len() && (#[trigger] old_entries[j]).key@ == k;
                    assert(oj != i);
                    let j = if oj < i { oj } else { oj - 1 };
                    assert(self.entries@[j] == old_entries[oj]);
                }
            },
            None => {
                assert(self.model@.remove(key@) =~= self.model@);
            },
        }
    }
}

} // verus!
