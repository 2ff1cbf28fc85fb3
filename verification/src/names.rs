//! A set of names.

use vstd::prelude::*;

use crate::text::same_text;

verus! {

/// A finite set of names, such as the groups that the user has folded.
#[derive(Debug)]
pub struct NameSet {
    names: Vec<String>,
}

impl View for NameSet {
    type V = Set<Seq<char>>;

    closed spec fn view(&self) -> Set<Seq<char>> {
        self.names.deep_view().to_set()
    }
}

impl NameSet {
    /// The empty set.
    pub fn new() -> (set: Self)
        ensures
            set@ == Set::<Seq<char>>::empty(),
    {
        let set = NameSet { names: Vec::new() };
        assert(set@ =~= Set::<Seq<char>>::empty());
        set
    }

    /// Whether `name` is in the set.
    pub fn contains(&self, name: &str) -> (found: bool)
        ensures
            found == self@.contains(name@),
    {
        let mut i: usize = 0;
        while i < self.names.len()
            invariant
                i <= self.names.len(),
                forall|j: int| 0 <= j < i ==> self.names@[j]@ != name@,
            decreases self.names.len() - i,
        {
            if same_text(self.names[i].as_str(), name) {
                assert(self.names.deep_view()[i as int] == name@);
                return true;
            }
            i += 1;
        }
        assert(!self.names.deep_view().contains(name@));
        false
    }

    /// Puts `name` into the set.
    pub fn insert(&mut self, name: String)
        ensures
            final(self)@ == old(self)@.insert(name@),
    {
        if !self.contains(name.as_str()) {
            let ghost before = self.names.deep_view();
            self.names.push(name);
            proof {
                assert(self.names.deep_view() =~= before.push(name@));
                before.lemma_push_to_set_commute(name@);
            }
        } else {
            assert(self@ =~= self@.insert(name@));
        }
    }

    /// Takes `name` out of the set.
    pub fn remove(&mut self, name: &str)
        ensures
            final(self)@ == old(self)@.remove(name@),
    {
        let ghost before = self.names.deep_view();
        let mut kept: Vec<String> = Vec::new();
        let mut i: usize = 0;
        assert(before.subrange(0, 0) =~= Seq::empty());
        assert(kept.deep_view() =~= Seq::empty());
        assert(kept.deep_view().to_set() =~= before.subrange(0, 0).to_set().remove(name@));
        while i < self.names.len()
            invariant
                i <= self.names.len(),
                before == self.names.deep_view(),
                kept.deep_view().to_set() == before.subrange(0, i as int).to_set().remove(name@),
            decreases self.names.len() - i,
        {
            let ghost held = kept.deep_view();
            let ghost seen = before.subrange(0, i as int);
            proof {
                assert(before.subrange(0, i + 1) =~= seen.push(before[i as int]));
                seen.lemma_push_to_set_commute(before[i as int]);
            }
            if !same_text(self.names[i].as_str(), name) {
                kept.push(self.names[i].clone());
                proof {
                    assert(kept.deep_view() =~= held.push(before[i as int]));
                    held.lemma_push_to_set_commute(before[i as int]);
                    assert(kept.deep_view().to_set() =~= before.subrange(0, i + 1).to_set().remove(
                        name@,
                    ));
                }
            } else {
                assert(kept.deep_view().to_set() =~= before.subrange(0, i + 1).to_set().remove(
                    name@,
                ));
            }
            i += 1;
        }
        assert(before.subrange(0, i as int) =~= before);
        self.names = kept;
    }
}

impl Clone for NameSet {
    fn clone(&self) -> (copy: Self)
        ensures
            copy@ == self@,
    {
        let mut names: Vec<String> = Vec::new();
        let mut i: usize = 0;
        while i < self.names.len()
            invariant
                i <= self.names.len(),
                names@.len() == i,
                forall|j: int| 0 <= j < i ==> names@[j]@ == self.names@[j]@,
            decreases self.names.len() - i,
        {
            names.push(self.names[i].clone());
            i += 1;
        }
        assert(names.deep_view() =~= self.names.deep_view());
        NameSet { names }
    }
}

} // verus!
