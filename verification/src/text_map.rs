//! A map from texts to texts.

use vstd::prelude::*;

use crate::text::{same_text, text_pairs};

verus! {

/// The map that a list of pairs stands for; a later pair wins over an earlier one.
pub open spec fn pairs_map(pairs: Seq<(Seq<char>, Seq<char>)>) -> Map<Seq<char>, Seq<char>>
    decreases pairs.len(),
{
    if pairs.len() == 0 {
        Map::empty()
    } else {
        pairs_map(pairs.drop_last()).insert(pairs.last().0, pairs.last().1)
    }
}

/// No key occurs twice.
pub open spec fn distinct_keys(pairs: Seq<(Seq<char>, Seq<char>)>) -> bool {
    forall|i: int, j: int|
        0 <= i < j < pairs.len() ==> (#[trigger] pairs[i]).0 != (#[trigger] pairs[j]).0
}

/// A map of pairs with distinct keys holds every pair.
pub proof fn pairs_map_holds(pairs: Seq<(Seq<char>, Seq<char>)>, i: int)
    requires
        distinct_keys(pairs),
        0 <= i < pairs.len(),
    ensures
        pairs_map(pairs).dom().contains(pairs[i].0),
        pairs_map(pairs)[pairs[i].0] == pairs[i].1,
    decreases pairs.len(),
{
    if i < pairs.len() - 1 {
        let rest = pairs.drop_last();
        assert(rest[i] == pairs[i]);
        pairs_map_holds(rest, i);
        assert(pairs[i].0 != pairs[pairs.len() - 1].0);
    }
}

proof fn pairs_map_dom(pairs: Seq<(Seq<char>, Seq<char>)>, key: Seq<char>)
    ensures
        pairs_map(pairs).dom().contains(key) <==> exists|i: int|
            0 <= i < pairs.len() && (#[trigger] pairs[i]).0 == key,
    decreases pairs.len(),
{
    if pairs.len() > 0 {
        let rest = pairs.drop_last();
        pairs_map_dom(rest, key);
        if pairs.last().0 == key {
            assert(pairs[pairs.len() - 1].0 == key);
        } else {
            if exists|i: int| 0 <= i < rest.len() && (#[trigger] rest[i]).0 == key {
                let i = choose|i: int| 0 <= i < rest.len() && (#[trigger] rest[i]).0 == key;
                assert(pairs[i].0 == key);
            }
            if exists|i: int| 0 <= i < pairs.len() && (#[trigger] pairs[i]).0 == key {
                let i = choose|i: int| 0 <= i < pairs.len() && (#[trigger] pairs[i]).0 == key;
                assert(rest[i].0 == key);
            }
        }
    }
}

proof fn same_map(
    a: Seq<(Seq<char>, Seq<char>)>,
    expected: Map<Seq<char>, Seq<char>>,
)
    requires
        distinct_keys(a),
        forall|i: int|
            0 <= i < a.len() ==> expected.dom().contains((#[trigger] a[i]).0) && expected[a[i].0]
                == a[i].1,
        forall|key: Seq<char>| #[trigger]
            expected.dom().contains(key) ==> exists|i: int|
                0 <= i < a.len() && (#[trigger] a[i]).0 == key,
    ensures
        pairs_map(a) == expected,
{
    assert forall|key: Seq<char>| #[trigger]
        pairs_map(a).dom().contains(key) <==> expected.dom().contains(key) by {
        pairs_map_dom(a, key);
    }
    assert forall|key: Seq<char>| #[trigger] pairs_map(a).dom().contains(key) implies pairs_map(
        a,
    )[key] == expected[key] by {
        pairs_map_dom(a, key);
        let i = choose|i: int| 0 <= i < a.len() && (#[trigger] a[i]).0 == key;
        pairs_map_holds(a, i);
    }
    assert(pairs_map(a) =~= expected);
}

/// Texts by key.
#[derive(Debug)]
pub struct TextMap {
    pub pairs: Vec<(String, String)>,
}

impl View for TextMap {
    type V = Map<Seq<char>, Seq<char>>;

    open spec fn view(&self) -> Map<Seq<char>, Seq<char>> {
        pairs_map(text_pairs(self.pairs@))
    }
}

impl TextMap {
    pub open spec fn wf(self) -> bool {
        distinct_keys(text_pairs(self.pairs@))
    }

    pub fn new() -> (r: Self)
        ensures
            r.wf(),
            r@ == Map::<Seq<char>, Seq<char>>::empty(),
    {
        let r = TextMap { pairs: Vec::new() };
        assert(text_pairs(r.pairs@) =~= Seq::empty());
        r
    }

    /// A map of pairs whose keys are distinct.
    pub fn from_pairs(pairs: Vec<(String, String)>) -> (r: Self)
        requires
            distinct_keys(text_pairs(pairs@)),
        ensures
            r.wf(),
            r.pairs@ == pairs@,
            r@ == pairs_map(text_pairs(pairs@)),
    {
        TextMap { pairs }
    }

    fn find(&self, key: &str) -> (r: Option<usize>)
        requires
            self.wf(),
        ensures
            match r {
                Some(i) => i < self.pairs@.len() && self.pairs@[i as int].0@ == key@
                    && self@.dom().contains(key@) && self@[key@] == self.pairs@[i as int].1@,
                None => !self@.dom().contains(key@) && forall|j: int|
                    0 <= j < self.pairs@.len() ==> (#[trigger] self.pairs@[j]).0@ != key@,
            },
    {
        let ghost pairs = text_pairs(self.pairs@);
        let mut i: usize = 0;
        while i < self.pairs.len()
            invariant
                self.wf(),
                pairs == text_pairs(self.pairs@),
                0 <= i <= self.pairs.len(),
                forall|j: int| 0 <= j < i ==> (#[trigger] self.pairs@[j]).0@ != key@,
            decreases self.pairs.len() - i,
        {
            if same_text(self.pairs[i].0.as_str(), key) {
                proof {
                    assert(pairs[i as int] == (
                        self.pairs@[i as int].0@,
                        self.pairs@[i as int].1@,
                    ));
                    pairs_map_holds(pairs, i as int);
                }
                return Some(i);
            }
            i = i + 1;
        }
        proof {
            pairs_map_dom(pairs, key@);
            if self@.dom().contains(key@) {
                let j = choose|j: int| 0 <= j < pairs.len() && (#[trigger] pairs[j]).0 == key@;
                assert(self.pairs@[j].0@ == key@);
            }
        }
        None
    }

    /// The text under a key.
    pub fn get(&self, key: &str) -> (r: Option<&str>)
        requires
            self.wf(),
        ensures
            match r {
                Some(value) => self@.dom().contains(key@) && self@[key@] == value@,
                None => !self@.dom().contains(key@),
            },
    {
        match self.find(key) {
            Some(i) => Some(self.pairs[i].1.as_str()),
            None => None,
        }
    }

    /// Put a text under a key, in place of the one that was there.
    pub fn insert(&mut self, key: &str, value: &str)
        requires
            old(self).wf(),
        ensures
            final(self).wf(),
            final(self)@ == old(self)@.insert(key@, value@),
    {
        let ghost before = text_pairs(self.pairs@);
        let ghost expected = self@.insert(key@, value@);
        let place = self.find(key);
        match place {
            Some(i) => {
                self.pairs[i] = (key.to_owned(), value.to_owned());
                proof {
                    let after = text_pairs(self.pairs@);
                    assert(after =~= before.update(i as int, (key@, value@)));
                    assert(before[i as int].0 == key@);
                    assert forall|j: int| 0 <= j < after.len() implies expected.dom().contains(
                        (#[trigger] after[j]).0,
                    ) && expected[after[j].0] == after[j].1 by {
                        if j != i {
                            pairs_map_holds(before, j);
                        }
                    }
                    assert forall|k: Seq<char>| #[trigger]
                        expected.dom().contains(k) implies exists|j: int|
                        0 <= j < after.len() && (#[trigger] after[j]).0 == k by {
                        if k == key@ {
                            assert(after[i as int].0 == k);
                        } else {
                            pairs_map_dom(before, k);
                            let j = choose|j: int|
                                0 <= j < before.len() && (#[trigger] before[j]).0 == k;
                            assert(after[j].0 == k);
                        }
                    }
                    same_map(after, expected);
                }
            },
            None => {
                self.pairs.push((key.to_owned(), value.to_owned()));
                proof {
                    let after = text_pairs(self.pairs@);
                    assert(after =~= before.push((key@, value@)));
                    assert forall|j: int| 0 <= j < before.len() implies (#[trigger] before[j]).0
                        != key@ by {
                        assert(before[j].0 == old(self).pairs@[j].0@);
                    }
                    assert(after.drop_last() =~= before);
                }
            },
        }
    }

    /// Take a key out; `true` if it was there.
    pub fn remove(&mut self, key: &str) -> (r: bool)
        requires
            old(self).wf(),
        ensures
            final(self).wf(),
            r == old(self)@.dom().contains(key@),
            final(self)@ == old(self)@.remove(key@),
    {
        let ghost before = text_pairs(self.pairs@);
        let ghost expected = self@.remove(key@);
        match self.find(key) {
            Some(i) => {
                let _ = self.pairs.remove(i);
                proof {
                    let after = text_pairs(self.pairs@);
                    assert(after =~= before.remove(i as int));
                    assert(before[i as int].0 == key@);
                    assert forall|j: int| 0 <= j < after.len() implies expected.dom().contains(
                        (#[trigger] after[j]).0,
                    ) && expected[after[j].0] == after[j].1 by {
                        let from = if j < i {
                            j
                        } else {
                            j + 1
                        };
                        assert(after[j] == before[from]);
                        pairs_map_holds(before, from);
                        if from < i {
                            assert(before[from].0 != before[i as int].0);
                        } else {
                            assert(before[i as int].0 != before[from].0);
                        }
                    }
                    assert forall|a: int, b: int| 0 <= a < b < after.len() implies (
                    #[trigger] after[a]).0 != (#[trigger] after[b]).0 by {
                        let x = if a < i {
                            a
                        } else {
                            a + 1
                        };
                        let y = if b < i {
                            b
                        } else {
                            b + 1
                        };
                        assert(after[a] == before[x]);
                        assert(after[b] == before[y]);
                    }
                    assert forall|k: Seq<char>| #[trigger]
                        expected.dom().contains(k) implies exists|j: int|
                        0 <= j < after.len() && (#[trigger] after[j]).0 == k by {
                        pairs_map_dom(before, k);
                        let j = choose|j: int|
                            0 <= j < before.len() && (#[trigger] before[j]).0 == k;
                        let to = if j < i {
                            j
                        } else {
                            j - 1
                        };
                        assert(after[to] == before[j]);
                    }
                    same_map(after, expected);
                }
                true
            },
            None => {
                assert(self@ =~= expected);
                false
            },
        }
    }

    /// Take every key out.
    pub fn clear(&mut self)
        ensures
            final(self).wf(),
            final(self)@ == Map::<Seq<char>, Seq<char>>::empty(),
    {
        self.pairs.clear();
        assert(text_pairs(self.pairs@) =~= Seq::empty());
    }
}

} // verus!
