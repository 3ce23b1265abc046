//! The per-session deduplication set.
//!
//! A `SeenSet` records the ids of messages already forwarded in the current
//! process lifetime, scoped to one account loop. It grows on successful
//! forward and shrinks on successful delete; it is never persisted, so it is
//! lost on restart by design.

use vstd::prelude::*;

verus! {

/// The set of message ids already forwarded in this session.
pub struct SeenSet {
    ids: Vec<String>,
}

impl View for SeenSet {
    type V = Set<Seq<char>>;

    closed spec fn view(&self) -> Set<Seq<char>> {
        self.ids@.map_values(|s: String| s@).to_set()
    }
}

impl SeenSet {
    /// The stored ids are pairwise distinct, so one removal removes an id
    /// from the set entirely.
    pub closed spec fn wf(self) -> bool {
        self.ids@.map_values(|s: String| s@).no_duplicates()
    }

    /// An empty set.
    pub fn new() -> (r: SeenSet)
        ensures
            r.wf(),
            r@ == Set::<Seq<char>>::empty(),
    {
        let r = SeenSet { ids: Vec::new() };
        proof {
            assert(r@ =~= Set::<Seq<char>>::empty());
        }
        r
    }

    /// Whether `id` was already recorded.
    pub fn contains(&self, id: &String) -> (r: bool)
        ensures
            r == self@.contains(id@),
    {
        let ghost views = self.ids@.map_values(|s: String| s@);
        let mut k: usize = 0;
        while k < self.ids.len()
            invariant
                k <= self.ids.len(),
                views == self.ids@.map_values(|s: String| s@),
                forall|j: int| 0 <= j < k ==> views[j] != id@,
            decreases self.ids.len() - k,
        {
            if self.ids[k] == *id {
                proof {
                    assert(views[k as int] == id@);
                    assert(views.contains(id@));
                }
                return true;
            }
            k += 1;
        }
        proof {
            assert(!views.contains(id@));
        }
        false
    }

    /// Records `id`; recording an id twice leaves the set unchanged.
    pub fn insert(&mut self, id: String)
        requires
            old(self).wf(),
        ensures
            final(self).wf(),
            final(self)@ == old(self)@.insert(id@),
    {
        let ghost old_views = self.ids@.map_values(|s: String| s@);
        let ghost old_set = self@;
        if !self.contains(&id) {
            let ghost idv = id@;
            self.ids.push(id);
            proof {
                let views = self.ids@.map_values(|s: String| s@);
                assert(views =~= old_views.push(idv));
                assert forall|j: int, l: int|
                    0 <= j < views.len() && 0 <= l < views.len() && j != l implies views[j]
                    != views[l] by {
                    if j < old_views.len() && l < old_views.len() {
                        assert(old_views[j] == views[j] && old_views[l] == views[l]);
                    } else if j < old_views.len() {
                        assert(!old_views.contains(idv));
                        assert(old_views[j] == views[j]);
                    } else if l < old_views.len() {
                        assert(!old_views.contains(idv));
                        assert(old_views[l] == views[l]);
                    }
                }
                assert forall|x: Seq<char>| self@.contains(x) implies old_set.insert(idv).contains(
                    x,
                ) by {
                    let i = choose|i: int| 0 <= i < views.len() && views[i] == x;
                    if i < old_views.len() {
                        assert(old_views.contains(x));
                    }
                }
                assert forall|x: Seq<char>| old_set.insert(idv).contains(x) implies self@.contains(
                    x,
                ) by {
                    if x == idv {
                        assert(views[views.len() - 1] == idv);
                        assert(views.contains(x));
                    } else {
                        let i = choose|i: int| 0 <= i < old_views.len() && old_views[i] == x;
                        assert(views[i] == x);
                        assert(views.contains(x));
                    }
                }
                assert(self@ =~= old_set.insert(idv));
            }
        } else {
            proof {
                assert(self@ =~= old_set.insert(id@));
            }
        }
    }

    /// Removes `id` if present.
    pub fn remove(&mut self, id: &String)
        requires
            old(self).wf(),
        ensures
            final(self).wf(),
            final(self)@ == old(self)@.remove(id@),
    {
        let ghost old_views = self.ids@.map_values(|s: String| s@);
        let ghost old_set = self@;
        let mut k: usize = 0;
        while k < self.ids.len()
            invariant
                k <= self.ids.len(),
                self == old(self),
                old_views == self.ids@.map_values(|s: String| s@),
                old_views.no_duplicates(),
                old_set == self@,
                forall|j: int| 0 <= j < k ==> old_views[j] != id@,
            decreases self.ids.len() - k,
        {
            if self.ids[k] == *id {
                proof {
                    assert(old_views[k as int] == id@);
                }
                self.ids.remove(k);
                proof {
                    let views = self.ids@.map_values(|s: String| s@);
                    let rem = old_views.remove(k as int);
                    old_views.remove_ensures(k as int);
                    assert(views =~= rem);
                    assert forall|j: int, l: int|
                        0 <= j < rem.len() && 0 <= l < rem.len() && j != l implies rem[j]
                        != rem[l] by {
                        let jo: int = if j < k { j } else { j + 1 };
                        let lo: int = if l < k { l } else { l + 1 };
                        assert(rem[j] == old_views[jo] && rem[l] == old_views[lo]);
                    }
                    assert(views.no_duplicates());
                    assert forall|x: Seq<char>| self@.contains(x) implies old_set.remove(
                        id@,
                    ).contains(x) by {
                        assert(views.contains(x));
                        let i = choose|i: int| 0 <= i < rem.len() && rem[i] == x;
                        let io: int = if i < k { i } else { i + 1 };
                        assert(rem[i] == old_views[io]);
                        assert(old_views.contains(x));
                        if x == id@ {
                            assert(old_views[io] == old_views[k as int]);
                            assert(false);
                        }
                    }
                    assert forall|x: Seq<char>| old_set.remove(id@).contains(x) implies
                        self@.contains(x) by {
                        assert(old_views.contains(x));
                        let i = choose|i: int| 0 <= i < old_views.len() && old_views[i] == x;
                        assert(i != k);
                        let inew: int = if i < k { i } else { i - 1 };
                        assert(rem[inew] == old_views[i]);
                        assert(views.contains(x));
                    }
                    assert(self@ =~= old_set.remove(id@));
                }
                return ;
            }
            k += 1;
        }
        proof {
            assert(!old_views.contains(id@));
            assert(self@ =~= old_set.remove(id@));
        }
    }

    /// Whether the set holds no id at all.
    pub fn is_empty(&self) -> (r: bool)
        ensures
            r == (self@ == Set::<Seq<char>>::empty()),
    {
        let r = self.ids.len() == 0;
        proof {
            let views = self.ids@.map_values(|s: String| s@);
            if self.ids.len() == 0 {
                assert(self@ =~= Set::<Seq<char>>::empty());
            } else {
                assert(views[0] == self.ids@[0]@);
                assert(views.contains(self.ids@[0]@));
                assert(self@.contains(self.ids@[0]@));
                assert(self@ != Set::<Seq<char>>::empty());
            }
        }
        r
    }
}

} // verus!
