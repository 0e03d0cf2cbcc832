use vstd::prelude::*;

use crate::error::ImagioError;

verus! {

/// An in-memory storage operator: a byte store addressed by string
/// keys, offering the four operations every backend of the service
/// supports (`read`, `write`, `exists_key`, `delete`).
///
/// Its abstract state is a map from key characters to byte contents;
/// every operation is specified exactly against that map.
pub struct MemoryStore {
    entries: Vec<(String, Vec<u8>)>,
}

/// The map denoted by an association list of entries; a later entry
/// with the same key overrides an earlier one.
pub open spec fn spec_store_map(s: Seq<(String, Vec<u8>)>) -> Map<Seq<char>, Seq<u8>>
    decreases s.len(),
{
    if s.len() == 0 {
        Map::empty()
    } else {
        spec_store_map(s.drop_last()).insert(s.last().0@, s.last().1@)
    }
}

spec fn distinct_keys(s: Seq<(String, Vec<u8>)>) -> bool {
    forall|i: int, j: int| 0 <= i < j < s.len() ==> s[i].0@ != s[j].0@
}

impl View for MemoryStore {
    type V = Map<Seq<char>, Seq<u8>>;

    closed spec fn view(&self) -> Map<Seq<char>, Seq<u8>> {
        spec_store_map(self.entries@)
    }
}

proof fn lemma_contains_iff_entry(s: Seq<(String, Vec<u8>)>, k: Seq<char>)
    ensures
        spec_store_map(s).contains_key(k) <==> exists|i: int| 0 <= i < s.len() && s[i].0@ == k,
    decreases s.len(),
{
    if s.len() > 0 {
        lemma_contains_iff_entry(s.drop_last(), k);
        if s.last().0@ == k {
            assert(s[s.len() - 1].0@ == k);
        } else {
            if spec_store_map(s).contains_key(k) {
                let i = choose|i: int| 0 <= i < s.drop_last().len() && s.drop_last()[i].0@ == k;
                assert(s[i].0@ == k);
            }
            if exists|i: int| 0 <= i < s.len() && s[i].0@ == k {
                let i = choose|i: int| 0 <= i < s.len() && s[i].0@ == k;
                assert(i < s.len() - 1);
                assert(s.drop_last()[i].0@ == k);
            }
        }
    }
}

proof fn lemma_value_at_entry(s: Seq<(String, Vec<u8>)>, i: int)
    requires
        distinct_keys(s),
        0 <= i < s.len(),
    ensures
        spec_store_map(s).contains_key(s[i].0@),
        spec_store_map(s)[s[i].0@] == s[i].1@,
    decreases s.len(),
{
    if i == s.len() - 1 {
    } else {
        assert(distinct_keys(s.drop_last())) by {
            assert(forall|p: int, q: int|
                0 <= p < q < s.drop_last().len() ==> s.drop_last()[p] == s[p] && s.drop_last()[q]
                    == s[q]);
        }
        lemma_value_at_entry(s.drop_last(), i);
        assert(s.drop_last()[i] == s[i]);
        assert(s.last().0@ != s[i].0@);
    }
}

proof fn lemma_remove_entry(s: Seq<(String, Vec<u8>)>, i: int)
    requires
        distinct_keys(s),
        0 <= i < s.len(),
    ensures
        spec_store_map(s.remove(i)) == spec_store_map(s).remove(s[i].0@),
        distinct_keys(s.remove(i)),
    decreases s.len(),
{
    let k = s[i].0@;
    assert(forall|p: int|
        0 <= p < s.remove(i).len() ==> s.remove(i)[p] == (if p < i {
            s[p]
        } else {
            s[p + 1]
        }));
    assert(distinct_keys(s.remove(i)));
    if i == s.len() - 1 {
        assert(s.remove(i) =~= s.drop_last());
        lemma_contains_iff_entry(s.drop_last(), k);
        assert(!spec_store_map(s.drop_last()).contains_key(k)) by {
            if exists|p: int| 0 <= p < s.drop_last().len() && s.drop_last()[p].0@ == k {
                let p = choose|p: int| 0 <= p < s.drop_last().len() && s.drop_last()[p].0@ == k;
                assert(s[p].0@ == k && p < i);
            }
        }
        assert(spec_store_map(s.drop_last()) =~= spec_store_map(s).remove(k));
    } else {
        assert(distinct_keys(s.drop_last())) by {
            assert(forall|p: int, q: int|
                0 <= p < q < s.drop_last().len() ==> s.drop_last()[p] == s[p] && s.drop_last()[q]
                    == s[q]);
        }
        lemma_remove_entry(s.drop_last(), i);
        assert(s.remove(i).drop_last() =~= s.drop_last().remove(i));
        assert(s.remove(i).last() == s.last());
        assert(s.drop_last()[i] == s[i]);
        let last_k = s.last().0@;
        assert(last_k != k);
        assert(spec_store_map(s.remove(i)) == spec_store_map(s.drop_last().remove(i)).insert(
            last_k,
            s.last().1@,
        ));
        assert(spec_store_map(s.drop_last()).remove(k).insert(last_k, s.last().1@)
            =~= spec_store_map(s.drop_last()).insert(last_k, s.last().1@).remove(k));
    }
}

pub(crate) fn clone_bytes(v: &Vec<u8>) -> (r: Vec<u8>)
    ensures
        r@ == v@,
{
    let mut out: Vec<u8> = Vec::new();
    let mut i: usize = 0;
    while i < v.len()
        invariant
            i <= v@.len(),
            out@ =~= v@.subrange(0, i as int),
        decreases v@.len() - i,
    {
        out.push(v[i]);
        i = i + 1;
        assert(out@ =~= v@.subrange(0, i as int));
    }
    assert(out@ =~= v@);
    out
}

impl MemoryStore {
    /// Well-formedness: no key appears in two entries.
    pub closed spec fn wf(&self) -> bool {
        distinct_keys(self.entries@)
    }

    /// An empty store.
    pub fn new() -> (r: MemoryStore)
        ensures
            r@ == Map::<Seq<char>, Seq<u8>>::empty(),
            r.wf(),
    {
        MemoryStore { entries: Vec::new() }
    }

    fn find(&self, key: &String) -> (r: Option<usize>)
        ensures
            match r {
                Some(i) => i < self.entries@.len() && self.entries@[i as int].0@ == key@,
                None => forall|j: int| 0 <= j < self.entries@.len() ==> self.entries@[j].0@ != key@,
            },
    {
        let mut i: usize = 0;
        while i < self.entries.len()
            invariant
                i <= self.entries@.len(),
                forall|j: int| 0 <= j < i ==> self.entries@[j].0@ != key@,
            decreases self.entries@.len() - i,
        {
            if self.entries[i].0 == *key {
                return Some(i);
            }
            i = i + 1;
        }
        None
    }

    /// Whether the key is present; absence is a normal `false`, never
    /// an error.
    pub fn exists_key(&self, key: &String) -> (r: bool)
        ensures
            r == self@.contains_key(key@),
    {
        proof {
            lemma_contains_iff_entry(self.entries@, key@);
        }
        match self.find(key) {
            Some(_) => true,
            None => false,
        }
    }

    /// Reads the bytes stored under the key, failing with `NotFound`
    /// exactly when the key is absent.
    pub fn read(&self, key: &String) -> (r: Result<Vec<u8>, ImagioError>)
        requires
            self.wf(),
        ensures
            self@.contains_key(key@) ==> (r matches Ok(b) && b@ == self@[key@]),
            !self@.contains_key(key@) ==> r == Result::<Vec<u8>, ImagioError>::Err(
                ImagioError::NotFound,
            ),
    {
        proof {
            lemma_contains_iff_entry(self.entries@, key@);
        }
        match self.find(key) {
            Some(i) => {
                proof {
                    lemma_value_at_entry(self.entries@, i as int);
                }
                Ok(clone_bytes(&self.entries[i].1))
            },
            None => Err(ImagioError::NotFound),
        }
    }

    /// Creates or overwrites the entry under the key.
    pub fn write(&mut self, key: String, value: Vec<u8>)
        requires
            old(self).wf(),
        ensures
            final(self).wf(),
            final(self)@ == old(self)@.insert(key@, value@),
    {
        let ghost m0 = self@;
        match self.find(&key) {
            Some(i) => {
                proof {
                    lemma_remove_entry(self.entries@, i as int);
                    assert(forall|j: int|
                        0 <= j < self.entries@.len() && j != i ==> self.entries@[j].0@ != key@);
                }
                self.entries.remove(i);
                proof {
                    assert(forall|j: int|
                        0 <= j < self.entries@.len() ==> self.entries@[j].0@ != key@);
                }
            },
            None => {
                proof {
                    lemma_contains_iff_entry(self.entries@, key@);
                }
            },
        }
        let ghost mid = self.entries@;
        proof {
            assert(spec_store_map(mid) =~= m0.remove(key@));
            assert(forall|j: int| 0 <= j < mid.len() ==> mid[j].0@ != key@);
        }
        self.entries.push((key, value));
        proof {
            assert(self.entries@.drop_last() =~= mid);
            assert(self.entries@.last().0@ == key@);
            assert(distinct_keys(self.entries@));
            assert(self@ =~= m0.remove(key@).insert(key@, value@));
            assert(self@ =~= m0.insert(key@, value@));
        }
    }

    /// Removes the entry under the key, failing with `NotFound` exactly
    /// when the key is absent (callers treat that as non-fatal).
    pub fn delete(&mut self, key: &String) -> (r: Result<(), ImagioError>)
        requires
            old(self).wf(),
        ensures
            final(self).wf(),
            old(self)@.contains_key(key@) ==> r is Ok && final(self)@ == old(self)@.remove(key@),
            !old(self)@.contains_key(key@) ==> r == Result::<(), ImagioError>::Err(
                ImagioError::NotFound,
            ) && *final(self) == *old(self),
    {
        proof {
            lemma_contains_iff_entry(self.entries@, key@);
        }
        match self.find(key) {
            Some(i) => {
                proof {
                    lemma_remove_entry(self.entries@, i as int);
                }
                self.entries.remove(i);
                Ok(())
            },
            None => Err(ImagioError::NotFound),
        }
    }
}

} // verus!
