//! The set of content hashes that an extraction yields.

use crate::hash::DefinitionHash;
use vstd::prelude::*;

verus! {

/// The views of a sequence of hashes, one for one.
pub open spec fn hash_views(v: Seq<DefinitionHash>) -> Seq<Seq<u8>> {
    Seq::new(v.len(), |i: int| v[i]@)
}

/// An unordered collection of content hashes without repetition.
#[derive(Debug)]
pub struct DependencySet {
    hashes: Vec<DefinitionHash>,
}

impl View for DependencySet {
    type V = Set<Seq<u8>>;

    closed spec fn view(&self) -> Set<Seq<u8>> {
        hash_views(self.hashes@).to_set()
    }
}

/// The position of `hash` among `hashes`, if it occurs there.
fn find_hash(hashes: &Vec<DefinitionHash>, hash: &DefinitionHash) -> (res: Option<usize>)
    ensures
        res is Some <==> hash_views(hashes@).contains(hash@),
        res matches Some(i) ==> i < hashes.len() && hashes[i as int]@ == hash@,
{
    let n = hashes.len();
    let mut i: usize = 0;
    while i < n
        invariant
            n == hashes.len(),
            i <= n,
            forall|j: int| 0 <= j < i ==> hashes[j]@ != hash@,
        decreases n - i,
    {
        if hashes[i].same(hash) {
            assert(hash_views(hashes@)[i as int] == hash@);
            return Some(i);
        }
        i += 1;
    }
    assert forall|j: int| 0 <= j < hash_views(hashes@).len() implies hash_views(hashes@)[j]
        != hash@ by {}
    None
}

impl DependencySet {
    #[verifier::type_invariant]
    spec fn well_formed(self) -> bool {
        hash_views(self.hashes@).no_duplicates()
    }

    /// The empty set.
    pub fn new() -> (set: DependencySet)
        ensures
            set@ == Set::<Seq<u8>>::empty(),
    {
        DependencySet { hashes: Vec::new() }
    }

    /// Whether `hash` is in the set.
    pub fn contains(&self, hash: &DefinitionHash) -> (b: bool)
        ensures
            b == self@.contains(hash@),
    {
        find_hash(&self.hashes, hash).is_some()
    }

    /// Adds `hash` to the set.
    pub fn insert(&mut self, hash: DefinitionHash)
        ensures
            final(self)@ == old(self)@.insert(hash@),
    {
        proof {
            use_type_invariant(&*self);
        }
        if find_hash(&self.hashes, &hash).is_none() {
            let mut hashes: Vec<DefinitionHash> = Vec::new();
            std::mem::swap(&mut hashes, &mut self.hashes);
            let ghost before = hash_views(hashes@);
            hashes.push(hash);
            assert(hash_views(hashes@) =~= before.push(hash@));
            proof {
                before.lemma_push_to_set_commute(hash@);
            }
            self.hashes = hashes;
        }
    }

    /// The number of hashes in the set.
    pub fn len(&self) -> (n: usize)
        ensures
            n == self@.len(),
            self@.finite(),
    {
        proof {
            use_type_invariant(self);
            hash_views(self.hashes@).unique_seq_to_set();
            vstd::seq_lib::seq_to_set_is_finite(hash_views(self.hashes@));
        }
        self.hashes.len()
    }

    /// Whether the set holds no hash.
    pub fn is_empty(&self) -> (b: bool)
        ensures
            b == (self@ == Set::<Seq<u8>>::empty()),
    {
        proof {
            if self.hashes.len() > 0 {
                assert(hash_views(self.hashes@)[0] == self.hashes[0]@);
                assert(self@.contains(self.hashes[0]@));
            } else {
                assert(self@ =~= Set::<Seq<u8>>::empty());
            }
        }
        self.hashes.len() == 0
    }

    /// The hashes of the set, each once, in no particular order.
    pub fn to_vec(&self) -> (v: Vec<DefinitionHash>)
        ensures
            hash_views(v@).to_set() == self@,
            hash_views(v@).no_duplicates(),
    {
        proof {
            use_type_invariant(self);
        }
        let n = self.hashes.len();
        let mut v: Vec<DefinitionHash> = Vec::new();
        let mut i: usize = 0;
        while i < n
            invariant
                n == self.hashes.len(),
                i <= n,
                hash_views(v@) == hash_views(self.hashes@).take(i as int),
            decreases n - i,
        {
            v.push(self.hashes[i]);
            assert(hash_views(self.hashes@).take(i as int + 1) =~= hash_views(self.hashes@).take(
                i as int,
            ).push(self.hashes[i as int]@));
            i += 1;
        }
        assert(hash_views(self.hashes@).take(n as int) =~= hash_views(self.hashes@));
        v
    }
}

} // verus!
