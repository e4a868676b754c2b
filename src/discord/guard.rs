use vstd::prelude::*;

use crate::text::{same_text, views};

verus! {

/// The reviews whose interactions are being handled, so that two presses on
/// one review are handled one after the other.
pub struct ReviewGuard {
    held: Vec<String>,
}

impl View for ReviewGuard {
    type V = Set<Seq<char>>;

    closed spec fn view(&self) -> Set<Seq<char>> {
        views(self.held@).to_set()
    }
}

impl ReviewGuard {
    /// Each review is held at most once.
    pub closed spec fn wf(&self) -> bool {
        views(self.held@).no_duplicates()
    }

    /// No review held.
    pub fn new() -> (r: ReviewGuard)
        ensures
            r.wf(),
            r@ == Set::<Seq<char>>::empty(),
    {
        let r = ReviewGuard { held: Vec::new() };
        assert(views(r.held@).to_set() =~= Set::<Seq<char>>::empty());
        r
    }

    fn position(&self, id: &str) -> (r: Option<usize>)
        ensures
            r matches Some(i) ==> i < self.held@.len() && self.held@[i as int]@ == id@,
            r is None ==> !views(self.held@).contains(id@),
    {
        let mut i: usize = 0;
        while i < self.held.len()
            invariant
                i <= self.held@.len(),
                forall|j: int| 0 <= j < i ==> (#[trigger] self.held@[j])@ != id@,
            decreases self.held@.len() - i,
        {
            if same_text(self.held[i].as_str(), id) {
                return Some(i);
            }
            i = i + 1;
        }
        assert forall|j: int| 0 <= j < views(self.held@).len() implies views(self.held@)[j]
            != id@ by {
            assert(views(self.held@)[j] == self.held@[j]@);
        }
        None
    }

    /// Whether `id` is held.
    pub fn is_held(&self, id: &str) -> (r: bool)
        ensures
            r == self@.contains(id@),
    {
        match self.position(id) {
            Some(i) => {
                assert(views(self.held@)[i as int] == id@);
                true
            },
            None => false,
        }
    }

    /// Takes `id` when nobody holds it; `false`, and nothing changed, when
    /// somebody does.
    pub fn try_acquire(&mut self, id: &str) -> (r: bool)
        requires
            old(self).wf(),
        ensures
            final(self).wf(),
            r == !old(self)@.contains(id@),
            final(self)@ == old(self)@.insert(id@),
    {
        if self.is_held(id) {
            assert(self@.insert(id@) =~= self@);
            return false;
        }
        let ghost before = views(self.held@);
        self.held.push(String::from_str(id));
        assert(views(self.held@) =~= before.push(id@));
        assert(views(self.held@).to_set() =~= before.to_set().insert(id@)) by {
            assert forall|x: Seq<char>| #[trigger] views(self.held@).contains(x) implies before.contains(
                x,
            ) || x == id@ by {
                let k = choose|k: int| 0 <= k < views(self.held@).len() && views(self.held@)[k] == x;
                if k < before.len() {
                    assert(before[k] == x);
                }
            }
            assert forall|x: Seq<char>| #[trigger] before.contains(x) implies views(
                self.held@,
            ).contains(x) by {
                let k = choose|k: int| 0 <= k < before.len() && before[k] == x;
                assert(views(self.held@)[k] == x);
            }
            assert(views(self.held@)[before.len() as int] == id@);
        }
        true
    }

    /// Gives `id` back.
    pub fn release(&mut self, id: &str)
        requires
            old(self).wf(),
        ensures
            final(self).wf(),
            final(self)@ == old(self)@.remove(id@),
    {
        match self.position(id) {
            None => {
                assert(self@.remove(id@) =~= self@);
            },
            Some(i) => {
                let ghost before = views(self.held@);
                assert(before[i as int] == id@);
                assert(before.no_duplicates());
                self.held.remove(i);
                let ghost after = views(self.held@);
                assert(after =~= before.remove(i as int));
                assert(after.to_set() =~= before.to_set().remove(id@)) by {
                    assert forall|x: Seq<char>| #[trigger] after.contains(x) implies before.contains(
                        x,
                    ) && x != id@ by {
                        let k = choose|k: int| 0 <= k < after.len() && after[k] == x;
                        if k < i {
                            assert(before[k] == x);
                            assert(k != i);
                        } else {
                            assert(before[k + 1] == x);
                            assert(k + 1 != i);
                        }
                    }
                    assert forall|x: Seq<char>|
                        #[trigger] before.contains(x) && x != id@ implies after.contains(x) by {
                        let k = choose|k: int| 0 <= k < before.len() && before[k] == x;
                        assert(k != i);
                        if k < i {
                            assert(after[k] == x);
                        } else {
                            assert(after[k - 1] == x);
                        }
                    }
                }
            },
        }
    }
}

} // verus!
