//! The galaxy map as the conversations see it: each planet and the planets it
//! is linked to.
use crate::messages::ID;
use std::collections::HashMap;
use vstd::prelude::*;

verus! {

broadcast use vstd::std_specs::hash::group_hash_axioms;

/// The planets of the galaxy, each with the list of its neighbors.
pub struct Galaxy {
    planets: HashMap<u32, Vec<u32>>,
}

/// Planet `to` can be reached in one hop from planet `from`: both planets are
/// in the galaxy and `to` is among the neighbors of `from`.
pub open spec fn are_neighbors(g: Map<ID, Seq<ID>>, from: ID, to: ID) -> bool {
    &&& g.contains_key(from)
    &&& g.contains_key(to)
    &&& g[from].contains(to)
}

impl View for Galaxy {
    type V = Map<ID, Seq<ID>>;

    closed spec fn view(&self) -> Map<ID, Seq<ID>> {
        Map::new(
            |k: ID| self.planets@.contains_key(k),
            |k: ID| self.planets@[k]@,
        )
    }
}

impl Galaxy {
    /// A galaxy without planets.
    pub fn new() -> (g: Self)
        ensures
            g@ == Map::<ID, Seq<ID>>::empty(),
    {
        let g = Galaxy { planets: HashMap::new() };
        assert(g@ =~= Map::<ID, Seq<ID>>::empty());
        g
    }

    /// Adds planet `id` with the given neighbors, replacing any previous entry.
    pub fn add_planet(&mut self, id: ID, neighbors: Vec<ID>)
        ensures
            final(self)@ == old(self)@.insert(id, neighbors@),
    {
        self.planets.insert(id, neighbors);
        assert(self@ =~= old(self)@.insert(id, neighbors@));
    }

    /// Whether planet `id` is in the galaxy.
    pub fn contains_planet(&self, id: ID) -> (b: bool)
        ensures
            b == self@.contains_key(id),
    {
        self.planets.contains_key(&id)
    }

    /// A copy of the neighbors of planet `id`, or `None` if the galaxy holds no
    /// such planet.
    pub fn neighbors_of(&self, id: ID) -> (r: Option<Vec<ID>>)
        ensures
            match r {
                Some(v) => self@.contains_key(id) && v@ == self@[id],
                None => !self@.contains_key(id),
            },
    {
        match self.planets.get(&id) {
            Some(v) => {
                let c = v.clone();
                assert(c@ =~= v@);
                Some(c)
            },
            None => None,
        }
    }

    /// Whether planet `to` is a neighbor of planet `from`, both being planets of
    /// the galaxy.
    pub fn has_neighbor(&self, from: ID, to: ID) -> (b: bool)
        ensures
            b == are_neighbors(self@, from, to),
    {
        if !self.planets.contains_key(&to) {
            return false;
        }
        match self.planets.get(&from) {
            None => false,
            Some(v) => {
                assert(self@.contains_key(from) && self@[from] == v@);
                let mut i: usize = 0;
                while i < v.len()
                    invariant
                        0 <= i <= v.len(),
                        self@.contains_key(from),
                        self@.contains_key(to),
                        self@[from] == v@,
                        forall|j: int| 0 <= j < i ==> v@[j] != to,
                    decreases v.len() - i,
                {
                    if v[i] == to {
                        assert(v@.contains(to)) by {
                            assert(v@[i as int] == to);
                        }
                        return true;
                    }
                    i = i + 1;
                }
                false
            },
        }
    }
}

} // verus!
