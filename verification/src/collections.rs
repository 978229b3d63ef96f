//! Maps and sets of texts.

use vstd::prelude::*;

use crate::text;

verus! {

/// A map from texts to texts.
pub struct TextMap {
    entries: Vec<(String, String)>,
}

/// The map that a list of assignments makes, later ones replacing earlier ones.
pub open spec fn assigned(entries: Seq<(String, String)>) -> Map<Seq<char>, Seq<char>>
    decreases entries.len(),
{
    if entries.len() == 0 {
        Map::empty()
    } else {
        assigned(entries.drop_last()).insert(entries.last().0@, entries.last().1@)
    }
}

impl View for TextMap {
    type V = Map<Seq<char>, Seq<char>>;

    closed spec fn view(&self) -> Map<Seq<char>, Seq<char>> {
        assigned(self.entries@)
    }
}

impl TextMap {
    pub fn new() -> (r: Self)
        ensures
            r@ == Map::<Seq<char>, Seq<char>>::empty(),
    {
        TextMap { entries: Vec::new() }
    }

    pub fn insert(&mut self, key: String, value: String)
        ensures
            final(self)@ == old(self)@.insert(key@, value@),
    {
        let ghost before = self.entries@;
        self.entries.push((key, value));
        assert(self.entries@.drop_last() =~= before);
    }

    pub fn clear(&mut self)
        ensures
            final(self)@ == Map::<Seq<char>, Seq<char>>::empty(),
    {
        self.entries.clear();
    }

    /// The value of a key, if it has one.
    pub fn get(&self, key: &str) -> (r: Option<String>)
        ensures
            r is Some <==> self@.dom().contains(key@),
            r is Some ==> r->0@ == self@[key@],
    {
        let mut i: usize = self.entries.len();
        assert(self.entries@.take(i as int) =~= self.entries@);
        while i > 0
            invariant
                i <= self.entries@.len(),
                self@.dom().contains(key@) <==> assigned(self.entries@.take(i as int)).dom().contains(
                    key@,
                ),
                self@.dom().contains(key@) ==> self@[key@] == assigned(
                    self.entries@.take(i as int),
                )[key@],
            decreases i,
        {
            let ghost upto = self.entries@.take(i as int);
            assert(upto.drop_last() =~= self.entries@.take(i - 1));
            assert(upto.last() == self.entries@[i - 1]);
            if text::same_text(self.entries[i - 1].0.as_str(), key) {
                return Some(self.entries[i - 1].1.clone());
            }
            i = i - 1;
        }
        None
    }
}

/// A set of texts that remembers the order in which they came.
pub struct TextSet {
    items: Vec<String>,
}

/// A list without any copies of a text.
pub open spec fn without(s: Seq<Seq<char>>, x: Seq<char>) -> Seq<Seq<char>> {
    s.filter(|y: Seq<char>| y != x)
}

/// A list with a text added at the end, unless it is there already.
pub open spec fn including(s: Seq<Seq<char>>, x: Seq<char>) -> Seq<Seq<char>> {
    if s.contains(x) {
        s
    } else {
        s.push(x)
    }
}

impl View for TextSet {
    type V = Seq<Seq<char>>;

    closed spec fn view(&self) -> Seq<Seq<char>> {
        text::texts(self.items@)
    }
}

impl TextSet {
    #[verifier::type_invariant]
    spec fn distinct(self) -> bool {
        text::texts(self.items@).no_duplicates()
    }

    pub fn new() -> (r: Self)
        ensures
            r@ == Seq::<Seq<char>>::empty(),
    {
        let r = TextSet { items: Vec::new() };
        assert(r@ =~= Seq::<Seq<char>>::empty());
        r
    }

    pub fn len(&self) -> (r: usize)
        ensures
            r == self@.len(),
    {
        self.items.len()
    }

    pub fn contains(&self, x: &str) -> (r: bool)
        ensures
            r == self@.contains(x@),
    {
        let mut i: usize = 0;
        while i < self.items.len()
            invariant
                i <= self.items@.len(),
                forall|k: int| 0 <= k < i ==> self@[k] != x@,
            decreases self.items@.len() - i,
        {
            if text::same_text(self.items[i].as_str(), x) {
                assert(self@[i as int] == x@);
                return true;
            }
            i = i + 1;
        }
        false
    }

    pub fn insert(&mut self, x: String)
        ensures
            final(self)@ == including(old(self)@, x@),
            final(self)@.no_duplicates(),
    {
        proof {
            use_type_invariant(&*self);
        }
        if !self.contains(x.as_str()) {
            let ghost before = self@;
            let mut items: Vec<String> = Vec::new();
            let mut i: usize = 0;
            while i < self.items.len()
                invariant
                    i <= self.items@.len(),
                    items@ == self.items@.take(i as int),
                decreases self.items@.len() - i,
            {
                items.push(self.items[i].clone());
                i = i + 1;
                assert(self.items@.take(i as int) =~= self.items@.take(i - 1).push(
                    self.items@[i - 1],
                ));
            }
            items.push(x);
            proof {
                assert(self.items@.take(i as int) =~= self.items@);
                assert(text::texts(items@) =~= before.push(x@));
                let made = before.push(x@);
                assert forall|j: int, k: int|
                    0 <= j < made.len() && 0 <= k < made.len() && j != k implies made[j]
                    != made[k] by {
                    if j == before.len() {
                        assert(before.contains(made[k]));
                    } else if k == before.len() {
                        assert(before.contains(made[j]));
                    }
                }
            }
            *self = TextSet { items };
        }
    }

    pub fn remove(&mut self, x: &str)
        ensures
            final(self)@ == without(old(self)@, x@),
            final(self)@.no_duplicates(),
    {
        proof {
            use_type_invariant(&*self);
        }
        let mut items: Vec<String> = Vec::new();
        let mut i: usize = 0;
        let ghost keep = |y: Seq<char>| y != x@;
        let ghost all = self@;
        proof {
            assert(all.take(0) =~= Seq::<Seq<char>>::empty());
            reveal(Seq::filter);
            assert(text::texts(items@) =~= all.take(0).filter(keep));
        }
        while i < self.items.len()
            invariant
                i <= self.items@.len(),
                all == text::texts(self.items@),
                keep == (|y: Seq<char>| y != x@),
                text::texts(items@) == all.take(i as int).filter(keep),
            decreases self.items@.len() - i,
        {
            let ghost before = items@;
            proof {
                let upto = all.take(i + 1);
                assert(upto.drop_last() =~= all.take(i as int));
                assert(upto.last() == self.items@[i as int]@);
                reveal(Seq::filter);
            }
            if !text::same_text(self.items[i].as_str(), x) {
                items.push(self.items[i].clone());
                assert(text::texts(items@) =~= text::texts(before).push(self.items@[i as int]@));
            }
            i = i + 1;
        }
        proof {
            assert(all.take(i as int) =~= all);
            filter_keeps_distinct(all, keep);
        }
        *self = TextSet { items };
    }

    pub fn clear(&mut self)
        ensures
            final(self)@ == Seq::<Seq<char>>::empty(),
    {
        *self = TextSet::new();
    }

    /// The texts in the order in which they came.
    pub fn to_vec(&self) -> (r: Vec<String>)
        ensures
            text::texts(r@) == self@,
            self@.no_duplicates(),
    {
        proof {
            use_type_invariant(self);
        }
        text::clone_texts(&self.items)
    }
}

/// Leaving items out of a list without repetitions makes no repetition.
pub proof fn filter_keeps_distinct(s: Seq<Seq<char>>, keep: spec_fn(Seq<char>) -> bool)
    requires
        s.no_duplicates(),
    ensures
        s.filter(keep).no_duplicates(),
        forall|y: Seq<char>| s.filter(keep).contains(y) <==> s.contains(y) && keep(y),
    decreases s.len(),
{
    reveal(Seq::filter);
    if s.len() > 0 {
        let init = s.drop_last();
        filter_keeps_distinct(init, keep);
        let f = init.filter(keep);
        assert(!init.contains(s.last()));
        assert(s =~= init.push(s.last()));
        assert forall|y: Seq<char>| s.filter(keep).contains(y) <==> s.contains(y) && keep(y) by {
            if s.contains(y) {
                let k = choose|k: int| 0 <= k < s.len() && s[k] == y;
                if k < init.len() {
                    assert(init[k] == y);
                    assert(init.contains(y));
                }
            }
            if init.contains(y) {
                let k = choose|k: int| 0 <= k < init.len() && init[k] == y;
                assert(s[k] == y);
            }
            if keep(s.last()) {
                assert(f.push(s.last()).last() == s.last());
                if f.contains(y) {
                    let k = choose|k: int| 0 <= k < f.len() && f[k] == y;
                    assert(f.push(s.last())[k] == y);
                }
            }
            assert(s[s.len() - 1] == s.last());
        }
        if keep(s.last()) {
            assert(!f.contains(s.last()));
            let g = f.push(s.last());
            assert forall|j: int, k: int|
                0 <= j < g.len() && 0 <= k < g.len() && j != k implies g[j] != g[k] by {
                if j == f.len() {
                    assert(f.contains(g[k]));
                } else if k == f.len() {
                    assert(f.contains(g[j]));
                }
            }
        }
    }
}

} // verus!
