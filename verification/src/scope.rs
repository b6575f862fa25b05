//! Scope frames: the names that one binding construct has in scope.

use crate::namespace::string_views;
use vstd::prelude::*;

verus! {

/// A set of locally bound names. No name is held twice.
#[derive(Debug)]
pub struct ScopeFrame {
    names: Vec<String>,
}

impl View for ScopeFrame {
    type V = Set<Seq<char>>;

    closed spec fn view(&self) -> Set<Seq<char>> {
        string_views(self.names@).to_set()
    }
}

/// The position of `name` among `names`, if it occurs there.
fn find_name(names: &Vec<String>, name: &String) -> (res: Option<usize>)
    ensures
        res is Some <==> string_views(names@).contains(name@),
        res matches Some(i) ==> i < names.len() && names[i as int]@ == name@,
{
    let n = names.len();
    let mut i: usize = 0;
    while i < n
        invariant
            n == names.len(),
            i <= n,
            forall|j: int| 0 <= j < i ==> names[j]@ != name@,
        decreases n - i,
    {
        if names[i] == *name {
            assert(string_views(names@)[i as int] == name@);
            return Some(i);
        }
        i += 1;
    }
    assert forall|j: int| 0 <= j < string_views(names@).len() implies string_views(names@)[j]
        != name@ by {}
    None
}

impl ScopeFrame {
    #[verifier::type_invariant]
    spec fn well_formed(self) -> bool {
        string_views(self.names@).no_duplicates()
    }

    /// An empty frame.
    pub fn new() -> (frame: ScopeFrame)
        ensures
            frame@ == Set::<Seq<char>>::empty(),
    {
        ScopeFrame { names: Vec::new() }
    }

    /// Whether `name` is bound in this frame.
    pub fn contains(&self, name: &String) -> (b: bool)
        ensures
            b == self@.contains(name@),
    {
        find_name(&self.names, name).is_some()
    }

    /// Binds `name` in this frame.
    pub fn insert(&mut self, name: String)
        ensures
            final(self)@ == old(self)@.insert(name@),
    {
        proof {
            use_type_invariant(&*self);
        }
        if find_name(&self.names, &name).is_none() {
            let mut names: Vec<String> = Vec::new();
            std::mem::swap(&mut names, &mut self.names);
            let ghost before = string_views(names@);
            let ghost added = name@;
            names.push(name);
            assert(string_views(names@) =~= before.push(added));
            proof {
                before.lemma_push_to_set_commute(added);
            }
            self.names = names;
        }
    }

    /// The number of names bound in this frame.
    pub fn len(&self) -> (n: usize)
        ensures
            n == self@.len(),
            self@.finite(),
    {
        proof {
            use_type_invariant(self);
            string_views(self.names@).unique_seq_to_set();
            vstd::seq_lib::seq_to_set_is_finite(string_views(self.names@));
        }
        self.names.len()
    }
}

} // verus!
