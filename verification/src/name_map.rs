//! A map from names to values, kept in insertion order.

use crate::text::str_eq;
use vstd::prelude::*;

verus! {

/// A map from names to values. Every name stands in it at most once.
#[derive(Debug)]
pub struct NameMap<V> {
    entries: Vec<(String, V)>,
}

/// No name occurs twice.
spec fn distinct<V>(s: Seq<(String, V)>) -> bool {
    forall|i: int, j: int|
        #![trigger s[i], s[j]]
        0 <= i < s.len() && 0 <= j < s.len() && s[i].0@ == s[j].0@ ==> i == j
}

/// The map that a list of entries stands for.
spec fn table<V>(s: Seq<(String, V)>) -> Map<Seq<char>, V>
    decreases s.len(),
{
    if s.len() == 0 {
        Map::empty()
    } else {
        table(s.drop_last()).insert(s.last().0@, s.last().1)
    }
}

proof fn lemma_table<V>(s: Seq<(String, V)>)
    requires
        distinct(s),
    ensures
        forall|i: int|
            #![trigger s[i]]
            0 <= i < s.len() ==> table(s).contains_key(s[i].0@) && table(s)[s[i].0@] == s[i].1,
        forall|k: Seq<char>|
            #![trigger table(s).contains_key(k)]
            table(s).contains_key(k) ==> exists|i: int| 0 <= i < s.len() && s[i].0@ == k,
        table(s).dom().finite(),
        table(s).dom().len() == s.len(),
    decreases s.len(),
{
    if s.len() > 0 {
        let t = s.drop_last();
        assert forall|i: int, j: int|
            #![trigger t[i], t[j]]
            0 <= i < t.len() && 0 <= j < t.len() && t[i].0@ == t[j].0@ implies i == j by {
            assert(s[i] == t[i] && s[j] == t[j]);
        }
        lemma_table(t);
        let last = s.len() - 1;
        assert forall|i: int| #![trigger s[i]] 0 <= i < s.len() implies table(s).contains_key(
            s[i].0@,
        ) && table(s)[s[i].0@] == s[i].1 by {
            if i < last {
                assert(t[i] == s[i]);
                assert(s[i].0@ != s[last].0@);
            }
        }
        assert forall|k: Seq<char>|
            #![trigger table(s).contains_key(k)]
            table(s).contains_key(k) implies exists|i: int| 0 <= i < s.len() && s[i].0@ == k by {
            if k == s[last].0@ {
            } else {
                assert(table(t).contains_key(k));
                let i = choose|i: int| 0 <= i < t.len() && t[i].0@ == k;
                assert(s[i].0@ == k);
            }
        }
        if table(t).contains_key(s[last].0@) {
            let i = choose|i: int| 0 <= i < t.len() && t[i].0@ == s[last].0@;
            assert(s[i].0@ == s[last].0@);
        }
    }
}

impl<V> View for NameMap<V> {
    type V = Map<Seq<char>, V>;

    closed spec fn view(&self) -> Map<Seq<char>, V> {
        table(self.entries@)
    }
}

impl<V> NameMap<V> {
    #[verifier::type_invariant]
    spec fn wf(self) -> bool {
        distinct(self.entries@)
    }

    /// The empty map.
    pub fn new() -> (r: Self)
        ensures
            r@ == Map::<Seq<char>, V>::empty(),
    {
        NameMap { entries: Vec::new() }
    }

    /// Where `name` stands, or the number of entries where it does not.
    fn find(&self, name: &str) -> (r: usize)
        ensures
            r <= self.entries@.len(),
            r < self.entries@.len() ==> self.entries@[r as int].0@ == name@,
            r == self.entries@.len() ==> forall|i: int|
                #![trigger self.entries@[i]]
                0 <= i < self.entries@.len() ==> self.entries@[i].0@ != name@,
    {
        let mut i: usize = 0;
        while i < self.entries.len()
            invariant
                i <= self.entries@.len(),
                forall|j: int|
                    #![trigger self.entries@[j]]
                    0 <= j < i ==> self.entries@[j].0@ != name@,
            decreases self.entries@.len() - i,
        {
            if str_eq(self.entries[i].0.as_str(), name) {
                return i;
            }
            i = i + 1;
        }
        i
    }

    /// The value that `name` stands for.
    pub fn get(&self, name: &str) -> (r: Option<&V>)
        ensures
            match r {
                Some(v) => self@.contains_key(name@) && self@[name@] == *v,
                None => !self@.contains_key(name@),
            },
    {
        proof {
            use_type_invariant(&*self);
            lemma_table(self.entries@);
        }
        let i: usize = self.find(name);
        if i < self.entries.len() {
            Some(&self.entries[i].1)
        } else {
            None
        }
    }

    /// Tells whether `name` stands for a value.
    pub fn contains_key(&self, name: &str) -> (r: bool)
        ensures
            r == self@.contains_key(name@),
    {
        self.get(name).is_some()
    }

    /// How many names the map holds.
    pub fn len(&self) -> (r: usize)
        ensures
            self@.dom().finite(),
            r == self@.dom().len(),
    {
        proof {
            use_type_invariant(&*self);
            lemma_table(self.entries@);
        }
        self.entries.len()
    }

    /// Tells whether the map holds no name.
    pub fn is_empty(&self) -> (r: bool)
        ensures
            r == (self@ == Map::<Seq<char>, V>::empty()),
    {
        proof {
            use_type_invariant(&*self);
            lemma_table(self.entries@);
            if self.entries@.len() > 0 {
                assert(self@.contains_key(self.entries@[0].0@));
            } else {
                assert(self@ =~= Map::empty());
            }
        }
        self.entries.len() == 0
    }

    /// Lets `name` stand for `value`, and returns what it stood for before.
    pub fn insert(&mut self, name: String, value: V) -> (r: Option<V>)
        ensures
            final(self)@ == old(self)@.insert(name@, value),
            match r {
                Some(v) => old(self)@.contains_key(name@) && old(self)@[name@] == v,
                None => !old(self)@.contains_key(name@),
            },
    {
        proof {
            use_type_invariant(&*self);
            lemma_table(self.entries@);
        }
        let i: usize = self.find(name.as_str());
        let mut entries: Vec<(String, V)> = Vec::new();
        std::mem::swap(&mut self.entries, &mut entries);
        let ghost s = entries@;
        if i < entries.len() {
            let before: (String, V) = entries.remove(i);
            entries.insert(i, (name, value));
            proof {
                let t = entries@;
                assert(t =~= s.update(i as int, (name, value)));
                assert forall|a: int, b: int|
                    #![trigger t[a], t[b]]
                    0 <= a < t.len() && 0 <= b < t.len() && t[a].0@ == t[b].0@ implies a == b by {
                    assert(s[a].0@ == t[a].0@ && s[b].0@ == t[b].0@);
                }
                lemma_table(t);
                assert(table(t) =~= table(s).insert(name@, value)) by {
                    assert forall|k: Seq<char>| #[trigger]
                        table(t).contains_key(k) implies table(s).insert(name@, value).contains_key(
                        k,
                    ) by {
                        let a = choose|a: int| 0 <= a < t.len() && t[a].0@ == k;
                        assert(s[a].0@ == k);
                    }
                    assert forall|k: Seq<char>| #[trigger]
                        table(s).insert(name@, value).contains_key(k) implies table(t).contains_key(
                        k,
                    ) && table(t)[k] == table(s).insert(name@, value)[k] by {
                        if k == name@ {
                            assert(t[i as int].0@ == k);
                        } else {
                            assert(table(s).contains_key(k));
                            let a = choose|a: int| 0 <= a < s.len() && s[a].0@ == k;
                            assert(a != i);
                            assert(t[a] == s[a]);
                        }
                    }
                }
            }
            self.entries = entries;
            Some(before.1)
        } else {
            entries.push((name, value));
            proof {
                let t = entries@;
                assert(t.drop_last() =~= s);
                assert forall|a: int, b: int|
                    #![trigger t[a], t[b]]
                    0 <= a < t.len() && 0 <= b < t.len() && t[a].0@ == t[b].0@ implies a == b by {
                    if a < s.len() {
                        assert(s[a] == t[a]);
                    }
                    if b < s.len() {
                        assert(s[b] == t[b]);
                    }
                }
            }
            self.entries = entries;
            None
        }
    }

    /// Takes `name` out of the map, and returns what it stood for.
    pub fn remove(&mut self, name: &str) -> (r: Option<V>)
        ensures
            final(self)@ == old(self)@.remove(name@),
            match r {
                Some(v) => old(self)@.contains_key(name@) && old(self)@[name@] == v,
                None => !old(self)@.contains_key(name@),
            },
    {
        proof {
            use_type_invariant(&*self);
            lemma_table(self.entries@);
        }
        let i: usize = self.find(name);
        if i < self.entries.len() {
            let mut entries: Vec<(String, V)> = Vec::new();
            std::mem::swap(&mut self.entries, &mut entries);
            let ghost s = entries@;
            let before: (String, V) = entries.remove(i);
            proof {
                let t = entries@;
                assert(t =~= s.remove(i as int));
                assert forall|a: int, b: int|
                    #![trigger t[a], t[b]]
                    0 <= a < t.len() && 0 <= b < t.len() && t[a].0@ == t[b].0@ implies a == b by {
                    let a2 = if a < i { a } else { a + 1 };
                    let b2 = if b < i { b } else { b + 1 };
                    assert(s[a2] == t[a] && s[b2] == t[b]);
                }
                lemma_table(t);
                assert(table(t) =~= table(s).remove(name@)) by {
                    assert forall|k: Seq<char>| #[trigger] table(t).contains_key(k) implies table(
                        s,
                    ).remove(name@).contains_key(k) && table(t)[k] == table(s).remove(name@)[k] by {
                        let a = choose|a: int| 0 <= a < t.len() && t[a].0@ == k;
                        let a2 = if a < i { a } else { a + 1 };
                        assert(s[a2] == t[a]);
                        assert(s[a2].0@ != s[i as int].0@);
                    }
                    assert forall|k: Seq<char>| #[trigger]
                        table(s).remove(name@).contains_key(k) implies table(t).contains_key(k) by {
                        assert(table(s).contains_key(k));
                        let a = choose|a: int| 0 <= a < s.len() && s[a].0@ == k;
                        assert(a != i);
                        let a2 = if a < i { a } else { a - 1 };
                        assert(t[a2] == s[a]);
                    }
                }
            }
            self.entries = entries;
            Some(before.1)
        } else {
            proof {
                if self@.contains_key(name@) {
                    let a = choose|a: int|
                        0 <= a < self.entries@.len() && self.entries@[a].0@ == name@;
                    assert(false);
                }
                assert(self@.remove(name@) =~= self@);
            }
            None
        }
    }

    /// The entries, each name once.
    pub fn into_entries(self) -> (r: Vec<(String, V)>)
        ensures
            r@.len() == self@.dom().len(),
            forall|i: int|
                #![trigger r@[i]]
                0 <= i < r@.len() ==> self@.contains_key(r@[i].0@) && self@[r@[i].0@] == r@[i].1,
            forall|i: int, j: int|
                #![trigger r@[i], r@[j]]
                0 <= i < r@.len() && 0 <= j < r@.len() && r@[i].0@ == r@[j].0@ ==> i == j,
            forall|k: Seq<char>| #[trigger]
                self@.contains_key(k) ==> exists|i: int| 0 <= i < r@.len() && r@[i].0@ == k,
    {
        proof {
            use_type_invariant(&self);
            lemma_table(self.entries@);
        }
        self.entries
    }
}

impl<V: Clone> Clone for NameMap<V> {
    fn clone(&self) -> (r: Self)
        ensures
            r@.dom() == self@.dom(),
            forall|k: Seq<char>| #[trigger]
                r@.contains_key(k) ==> vstd::pervasive::cloned(self@[k], r@[k]),
    {
        proof {
            use_type_invariant(self);
            lemma_table(self.entries@);
        }
        let mut entries: Vec<(String, V)> = Vec::new();
        let ghost s = self.entries@;
        let mut i: usize = 0;
        while i < self.entries.len()
            invariant
                s == self.entries@,
                i <= s.len(),
                entries@.len() == i,
                forall|j: int|
                    #![trigger entries@[j]]
                    0 <= j < i ==> entries@[j].0@ == s[j].0@ && vstd::pervasive::cloned(
                        s[j].1,
                        entries@[j].1,
                    ),
            decreases s.len() - i,
        {
            let entry: &(String, V) = &self.entries[i];
            entries.push((entry.0.clone(), entry.1.clone()));
            i = i + 1;
        }
        proof {
            let t = entries@;
            assert forall|a: int, b: int|
                #![trigger t[a], t[b]]
                0 <= a < t.len() && 0 <= b < t.len() && t[a].0@ == t[b].0@ implies a == b by {
                assert(s[a].0@ == s[b].0@);
            }
            lemma_table(t);
            assert forall|k: Seq<char>| #[trigger] table(t).contains_key(k) implies table(
                s,
            ).contains_key(k) && vstd::pervasive::cloned(table(s)[k], table(t)[k]) by {
                let a = choose|a: int| 0 <= a < t.len() && t[a].0@ == k;
                assert(s[a].0@ == k);
            }
            assert forall|k: Seq<char>| #[trigger] table(s).contains_key(k) implies table(
                t,
            ).contains_key(k) by {
                let a = choose|a: int| 0 <= a < s.len() && s[a].0@ == k;
                assert(t[a].0@ == k);
            }
            assert(table(t).dom() =~= table(s).dom());
        }
        NameMap { entries }
    }
}

} // verus!
