//! Sets of texts.
use crate::text::same_text;
use vstd::prelude::*;

verus! {

/// Tells whether a text is among the first `n` of a list.
spec fn among(list: Seq<String>, n: int, text: Seq<char>) -> bool {
    exists|i: int| 0 <= i < n && #[trigger] list[i]@ == text
}

/// A set of texts.
#[derive(Debug)]
pub struct TextSet {
    items: Vec<String>,
}

impl View for TextSet {
    type V = Set<Seq<char>>;

    closed spec fn view(&self) -> Set<Seq<char>> {
        Set::new(|t: Seq<char>| among(self.items@, self.items@.len() as int, t))
    }
}

impl TextSet {
    /// A set without texts.
    pub fn new() -> (r: Self)
        ensures
            r@ == Set::<Seq<char>>::empty(),
    {
        let r = TextSet { items: Vec::new() };
        assert(r@ =~= Set::<Seq<char>>::empty());
        r
    }

    /// Tells whether a text is in the set.
    pub fn contains(&self, text: &str) -> (r: bool)
        ensures
            r == self@.contains(text@),
    {
        for i in 0..self.items.len()
            invariant
                forall|k: int| 0 <= k < i ==> #[trigger] self.items@[k]@ != text@,
        {
            if same_text(self.items[i].as_str(), text) {
                assert(self.items@[i as int]@ == text@);
                return true;
            }
        }
        false
    }

    /// Puts a text into the set, and tells whether it was not there before.
    pub fn insert(&mut self, text: String) -> (r: bool)
        ensures
            final(self)@ == old(self)@.insert(text@),
            r == !old(self)@.contains(text@),
    {
        if self.contains(text.as_str()) {
            assert(self@.insert(text@) =~= self@);
            return false;
        }
        self.items.push(text);
        assert(self@ =~= old(self)@.insert(text@)) by {
            let before = old(self).items@;
            let after = self.items@;
            assert forall|t: Seq<char>| self@.contains(t) == old(self)@.insert(text@).contains(t) by {
                if old(self)@.contains(t) {
                    let i = choose|i: int| 0 <= i < before.len() && #[trigger] before[i]@ == t;
                    assert(after[i]@ == t);
                }
                if t == text@ {
                    assert(after[before.len() as int]@ == t);
                }
                if self@.contains(t) && t != text@ {
                    let i = choose|i: int| 0 <= i < after.len() && #[trigger] after[i]@ == t;
                    assert(before[i]@ == t);
                }
            }
        }
        true
    }

    /// Takes a text out of the set, and tells whether it was there.
    pub fn remove(&mut self, text: &str) -> (r: bool)
        ensures
            final(self)@ == old(self)@.remove(text@),
            r == old(self)@.contains(text@),
    {
        let found = self.contains(text);
        let mut kept: Vec<String> = Vec::new();
        let ghost all = self.items@;
        for i in 0..self.items.len()
            invariant
                all == self.items@,
                forall|t: Seq<char>| #[trigger]
                    among(kept@, kept@.len() as int, t) <==> (t != text@ && among(
                        all,
                        i as int,
                        t,
                    )),
        {
            let ghost before = kept@;
            if !same_text(self.items[i].as_str(), text) {
                kept.push(self.items[i].clone());
            }
            assert forall|t: Seq<char>| #[trigger]
                among(kept@, kept@.len() as int, t) <==> (t != text@ && among(all, i + 1, t)) by {
                if among(kept@, kept@.len() as int, t) {
                    let k = choose|k: int| 0 <= k < kept@.len() && #[trigger] kept@[k]@ == t;
                    if k < before.len() {
                        assert(before[k]@ == t);
                        assert(among(before, before.len() as int, t));
                    } else {
                        assert(all[i as int]@ == t);
                    }
                }
                if t != text@ && among(all, i + 1, t) {
                    let k = choose|k: int| 0 <= k < i + 1 && #[trigger] all[k]@ == t;
                    if k < i {
                        assert(among(all, i as int, t));
                        assert(among(before, before.len() as int, t));
                        let j = choose|j: int| 0 <= j < before.len() && #[trigger] before[j]@ == t;
                        assert(kept@[j]@ == t);
                    } else {
                        assert(kept@[before.len() as int]@ == t);
                    }
                }
            }
        }
        self.items = kept;
        assert(self@ =~= old(self)@.remove(text@));
        found
    }

    /// Takes every text out of the set.
    pub fn clear(&mut self)
        ensures
            final(self)@ == Set::<Seq<char>>::empty(),
    {
        self.items = Vec::new();
        assert(self@ =~= Set::<Seq<char>>::empty());
    }
}

} // verus!
