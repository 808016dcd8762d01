//! The two names of a toolkit window: the id of its shell unit and the id
//! the toolkit gives it. Each shell unit carries one toolkit window, so
//! the two maps are inverse to each other.

use vstd::prelude::*;
use std::collections::BTreeMap;

verus! {

broadcast use {vstd::std_specs::btree::group_btree_axioms, vstd::laws_cmp::group_laws_cmp};

/// Unit ids to toolkit ids and back.
#[derive(Debug)]
pub struct WindowAliases {
    aliases: BTreeMap<u64, u64>,
    back_aliases: BTreeMap<u64, u64>,
}

/// `back` is the inverse of `forth`.
pub open spec fn inverse(forth: Map<u64, u64>, back: Map<u64, u64>) -> bool {
    &&& forall|l: u64| #[trigger] forth.contains_key(l) ==> back.contains_key(forth[l]) && back[forth[l]] == l
    &&& forall|i: u64| #[trigger] back.contains_key(i) ==> forth.contains_key(back[i]) && forth[back[i]] == i
}

impl WindowAliases {
    /// Unit ids to toolkit ids.
    pub closed spec fn forth(&self) -> Map<u64, u64> {
        self.aliases@
    }

    /// Toolkit ids to unit ids.
    pub closed spec fn back(&self) -> Map<u64, u64> {
        self.back_aliases@
    }

    /// The two maps are inverse to each other.
    pub open spec fn wf(&self) -> bool {
        inverse(self.forth(), self.back())
    }

    /// No aliases.
    pub fn new() -> (r: WindowAliases)
        ensures
            r.wf(),
            r.forth() == Map::<u64, u64>::empty(),
            r.back() == Map::<u64, u64>::empty(),
    {
        WindowAliases { aliases: BTreeMap::new(), back_aliases: BTreeMap::new() }
    }

    /// Names the toolkit window `iced` of the shell unit `layer`. Both ids
    /// are new: unit ids and toolkit ids are handed out once each.
    pub fn insert(&mut self, layer: u64, iced: u64)
        requires
            old(self).wf(),
            !old(self).forth().contains_key(layer),
            !old(self).back().contains_key(iced),
        ensures
            final(self).wf(),
            final(self).forth() == old(self).forth().insert(layer, iced),
            final(self).back() == old(self).back().insert(iced, layer),
    {
        let _ = self.aliases.insert(layer, iced);
        let _ = self.back_aliases.insert(iced, layer);
        proof {
            let f = self.aliases@;
            let b = self.back_aliases@;
            assert forall|l: u64| #[trigger] f.contains_key(l) implies b.contains_key(f[l]) && b[f[l]] == l by {
                if l != layer {
                    assert(old(self).aliases@.contains_key(l));
                    assert(old(self).back_aliases@.contains_key(old(self).aliases@[l]));
                }
            }
            assert forall|i: u64| #[trigger] b.contains_key(i) implies f.contains_key(b[i]) && f[b[i]] == i by {
                if i != iced {
                    assert(old(self).back_aliases@.contains_key(i));
                    assert(old(self).aliases@.contains_key(old(self).back_aliases@[i]));
                }
            }
        }
    }

    /// Forgets the toolkit window `iced` and its unit's alias.
    pub fn remove(&mut self, iced: u64)
        requires
            old(self).wf(),
        ensures
            final(self).wf(),
            final(self).back() == old(self).back().remove(iced),
            final(self).forth() == (if old(self).back().contains_key(iced) {
                old(self).forth().remove(old(self).back()[iced])
            } else {
                old(self).forth()
            }),
    {
        let layer = match self.back_aliases.get(&iced) {
            Some(l) => Some(*l),
            None => None,
        };
        if let Some(l) = layer {
            let _ = self.aliases.remove(&l);
        }
        let _ = self.back_aliases.remove(&iced);
        proof {
            let f = self.aliases@;
            let b = self.back_aliases@;
            assert forall|l: u64| #[trigger] f.contains_key(l) implies b.contains_key(f[l]) && b[f[l]] == l by {
                assert(old(self).aliases@.contains_key(l));
            }
            assert forall|i: u64| #[trigger] b.contains_key(i) implies f.contains_key(b[i]) && f[b[i]] == i by {
                assert(old(self).back_aliases@.contains_key(i));
            }
        }
    }

    /// The toolkit window of the shell unit `layer`.
    pub fn get_alias(&self, layer: u64) -> (r: Option<u64>)
        ensures
            r == (if self.forth().contains_key(layer) {
                Some(self.forth()[layer])
            } else {
                None
            }),
    {
        match self.aliases.get(&layer) {
            Some(i) => Some(*i),
            None => None,
        }
    }

    /// The shell unit of the toolkit window `iced`.
    pub fn get_back(&self, iced: u64) -> (r: Option<u64>)
        ensures
            r == (if self.back().contains_key(iced) {
                Some(self.back()[iced])
            } else {
                None
            }),
    {
        match self.back_aliases.get(&iced) {
            Some(l) => Some(*l),
            None => None,
        }
    }
}

/// A window named on insertion is found under both names; once removed,
/// it is found under neither, and the other windows keep their names.
pub proof fn lemma_alias_round_trip(a: WindowAliases, layer: u64, iced: u64, other: u64)
    requires
        a.wf(),
        !a.forth().contains_key(layer),
        !a.back().contains_key(iced),
        other != layer,
    ensures
        ({
            let f = a.forth().insert(layer, iced);
            let b = a.back().insert(iced, layer);
            &&& inverse(f, b)
            &&& f[layer] == iced && b[iced] == layer
            &&& !b.remove(iced).contains_key(iced)
            &&& !f.remove(b[iced]).contains_key(layer)
            &&& f.remove(b[iced]).contains_key(other) == a.forth().contains_key(other)
        }),
{
    let f = a.forth().insert(layer, iced);
    let b = a.back().insert(iced, layer);
    assert forall|l: u64| #[trigger] f.contains_key(l) implies b.contains_key(f[l]) && b[f[l]] == l by {
        if l != layer {
            assert(a.forth().contains_key(l));
        }
    }
    assert forall|i: u64| #[trigger] b.contains_key(i) implies f.contains_key(b[i]) && f[b[i]] == i by {
        if i != iced {
            assert(a.back().contains_key(i));
        }
    }
}

} // verus!
