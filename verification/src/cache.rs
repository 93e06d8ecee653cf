//! The cache of authorization decisions, keyed by action and resource id.

use vstd::hash_map::StringHashMap;
use vstd::prelude::*;

use crate::request::{Action, ACTION_COUNT};

verus! {

/// Decisions already taken: for each action, a map from resource id to whether
/// the request was denied.
pub struct DecisionCache {
    tables: Vec<StringHashMap<bool>>,
}

impl View for DecisionCache {
    type V = Map<(Action, Seq<char>), bool>;

    closed spec fn view(&self) -> Map<(Action, Seq<char>), bool> {
        Map::new(
            |k: (Action, Seq<char>)| self.tables@[k.0.spec_index()]@.contains_key(k.1),
            |k: (Action, Seq<char>)| self.tables@[k.0.spec_index()]@[k.1],
        )
    }
}

impl DecisionCache {
    /// The cache holds one table per action.
    pub closed spec fn wf(&self) -> bool {
        self.tables@.len() == ACTION_COUNT
    }

    /// Creates an empty cache.
    pub fn new() -> (c: DecisionCache)
        ensures
            c.wf(),
            c@ == Map::<(Action, Seq<char>), bool>::empty(),
    {
        let mut tables: Vec<StringHashMap<bool>> = Vec::new();
        let mut i: usize = 0;
        while i < ACTION_COUNT
            invariant
                i <= ACTION_COUNT,
                tables@.len() == i,
                forall|j: int| 0 <= j < i ==> (#[trigger] tables@[j])@ == Map::<Seq<char>, bool>::empty(),
            decreases ACTION_COUNT - i,
        {
            tables.push(StringHashMap::new());
            i = i + 1;
        }
        let c = DecisionCache { tables };
        assert(c@ =~= Map::<(Action, Seq<char>), bool>::empty());
        c
    }

    /// The decision recorded for the action on the resource, if any.
    pub fn get(&self, action: Action, resource: &str) -> (r: Option<bool>)
        requires
            self.wf(),
        ensures
            match r {
                Some(denied) => self@.contains_key((action, resource@)) && self@[(action, resource@)]
                    == denied,
                None => !self@.contains_key((action, resource@)),
            },
    {
        let i = action.index();
        match self.tables[i].get(resource) {
            Some(denied) => Some(*denied),
            None => None,
        }
    }

    /// Records the decision for the action on the resource.
    pub fn insert(&mut self, action: Action, resource: String, denied: bool)
        requires
            old(self).wf(),
        ensures
            final(self).wf(),
            final(self)@ == old(self)@.insert((action, resource@), denied),
    {
        let i = action.index();
        let ghost key = (action, resource@);
        self.tables[i].insert(resource, denied);
        assert(self@ =~= old(self)@.insert(key, denied)) by {
            assert forall|k: (Action, Seq<char>)| #[trigger] self@.contains_key(k) <==> old(self)@.insert(key, denied).contains_key(k) by {
                if k.0.spec_index() != action.spec_index() {
                    assert(self.tables@[k.0.spec_index()] == old(self).tables@[k.0.spec_index()]);
                }
            }
        }
    }
}

} // verus!
