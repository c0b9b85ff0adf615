//! The set of subscribers, kept in ascending order of identity.
use crate::identity::{id_lt, Identity};
use vstd::prelude::*;

verus! {

/// Every identity of `s` comes strictly before each later one.
pub open spec fn strictly_ascending(s: Seq<Identity>) -> bool {
    forall|i: int, j: int| 0 <= i < j < s.len() ==> id_lt(#[trigger] s[i], #[trigger] s[j])
}

/// A set of identities without duplicates. Its view is the members in
/// ascending order, which is also the order in which posts fan out.
pub struct SubscriberRegistry {
    ids: Vec<Identity>,
}

impl View for SubscriberRegistry {
    type V = Seq<Identity>;

    closed spec fn view(&self) -> Seq<Identity> {
        self.ids@
    }
}

impl SubscriberRegistry {
    /// The members are strictly ascending, so none appears twice.
    pub open spec fn wf(&self) -> bool {
        strictly_ascending(self@)
    }

    /// The members as a set.
    pub open spec fn members(&self) -> Set<Identity> {
        self@.to_set()
    }

    /// An empty registry.
    pub fn new() -> (r: SubscriberRegistry)
        ensures
            r.wf(),
            r@ == Seq::<Identity>::empty(),
    {
        SubscriberRegistry { ids: Vec::new() }
    }

    /// The position of the first member that does not precede `id`.
    fn lower_bound(&self, id: Identity) -> (r: usize)
        requires
            self.wf(),
        ensures
            r <= self@.len(),
            forall|j: int| 0 <= j < r ==> id_lt(#[trigger] self@[j], id),
            r < self@.len() ==> !id_lt(self@[r as int], id),
    {
        let n = self.ids.len();
        let mut i: usize = 0;
        while i < n && self.ids[i].precedes(&id)
            invariant
                n == self.ids@.len(),
                i <= n,
                forall|j: int| 0 <= j < i ==> id_lt(#[trigger] self.ids@[j], id),
            decreases n - i,
        {
            i = i + 1;
        }
        i
    }

    /// Whether `id` is a member.
    pub fn contains(&self, id: Identity) -> (r: bool)
        requires
            self.wf(),
        ensures
            r == self.members().contains(id),
    {
        let i = self.lower_bound(id);
        let found = i < self.ids.len() && self.ids[i] == id;
        proof {
            if !found {
                assert forall|j: int| 0 <= j < self@.len() implies self@[j] != id by {
                    if j >= i {
                        assert(id_lt(self@[i as int], self@[j]) || j == i);
                    }
                }
            }
        }
        found
    }

    /// Adds `id`; adding a member that is already present changes nothing.
    pub fn add(&mut self, id: Identity)
        requires
            old(self).wf(),
        ensures
            final(self).wf(),
            final(self).members() == old(self).members().insert(id),
    {
        let i = self.lower_bound(id);
        if i < self.ids.len() && self.ids[i] == id {
            assert(self.members() =~= old(self).members().insert(id)) by {
                assert(self@.contains(id) ==> self.members().contains(id));
                assert(self@[i as int] == id);
            }
        } else {
            let ghost s = self.ids@;
            self.ids.insert(i, id);
            proof {
                let t = self.ids@;
                assert(t == s.insert(i as int, id));
                assert forall|a: int, b: int| 0 <= a < b < t.len() implies id_lt(
                    #[trigger] t[a],
                    #[trigger] t[b],
                ) by {
                    if b < i {
                    } else if b == i {
                    } else if a < i {
                        assert(id_lt(s[a], id));
                        assert(!id_lt(s[i as int], id) && s[i as int] != id);
                        assert(i == b - 1 || id_lt(s[i as int], s[b - 1]));
                    } else if a == i {
                        assert(!id_lt(s[i as int], id) && s[i as int] != id);
                        assert(i == b - 1 || id_lt(s[i as int], s[b - 1]));
                    } else {
                        assert(id_lt(s[a - 1], s[b - 1]));
                    }
                }
                assert forall|x: Identity| #[trigger] t.to_set().contains(x) <==> s.to_set().insert(
                    id,
                ).contains(x) by {
                    if t.to_set().contains(x) {
                        let k = choose|k: int| 0 <= k < t.len() && t[k] == x;
                        if k < i {
                            assert(s[k] == x);
                        } else if k > i {
                            assert(s[k - 1] == x);
                        }
                    }
                    if s.to_set().contains(x) {
                        let k = choose|k: int| 0 <= k < s.len() && s[k] == x;
                        if k < i {
                            assert(t[k] == x);
                        } else {
                            assert(t[k + 1] == x);
                        }
                    }
                    if x == id {
                        assert(t[i as int] == x);
                    }
                }
                assert(t.to_set() =~= s.to_set().insert(id));
            }
        }
    }

    /// Removes `id`; removing an identity that is absent changes nothing.
    pub fn remove(&mut self, id: Identity)
        requires
            old(self).wf(),
        ensures
            final(self).wf(),
            final(self).members() == old(self).members().remove(id),
    {
        let i = self.lower_bound(id);
        let ghost s = self.ids@;
        if i < self.ids.len() && self.ids[i] == id {
            self.ids.remove(i);
            proof {
                let t = self.ids@;
                assert(t == s.remove(i as int));
                assert forall|a: int, b: int| 0 <= a < b < t.len() implies id_lt(
                    #[trigger] t[a],
                    #[trigger] t[b],
                ) by {
                    if b < i {
                    } else if a < i {
                        assert(id_lt(s[a], s[b + 1]));
                    } else {
                        assert(id_lt(s[a + 1], s[b + 1]));
                    }
                }
                assert forall|x: Identity| #[trigger] t.to_set().contains(x) <==> s.to_set().remove(
                    id,
                ).contains(x) by {
                    if t.to_set().contains(x) {
                        let k = choose|k: int| 0 <= k < t.len() && t[k] == x;
                        if k < i {
                            assert(s[k] == x);
                            assert(id_lt(s[k], s[i as int]));
                        } else {
                            assert(s[k + 1] == x);
                            assert(id_lt(s[i as int], s[k + 1]));
                        }
                    }
                    if s.to_set().remove(id).contains(x) {
                        let k = choose|k: int| 0 <= k < s.len() && s[k] == x;
                        if k < i {
                            assert(t[k] == x);
                        } else if k > i {
                            assert(t[k - 1] == x);
                        }
                    }
                }
                assert(t.to_set() =~= s.to_set().remove(id));
            }
        } else {
            proof {
                assert forall|j: int| 0 <= j < s.len() implies s[j] != id by {
                    if j >= i {
                        assert(id_lt(s[i as int], s[j]) || j == i);
                    }
                }
                assert(s.to_set() =~= s.to_set().remove(id));
            }
        }
    }

    /// The members in ascending order.
    pub fn snapshot(&self) -> (r: Vec<Identity>)
        requires
            self.wf(),
        ensures
            r@ == self@,
            strictly_ascending(r@),
            r@.to_set() == self.members(),
    {
        self.ids.clone()
    }
}

} // verus!
