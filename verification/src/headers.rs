//! A header set: name/value pairs with no repeated name, viewed as a map
//! from header name to header value. Callers keep names in lower case, as
//! the transport layer reports them.

use vstd::prelude::*;

verus! {

/// The map denoted by a sequence of name/value pairs; a later pair wins.
pub open spec fn pairs_map(s: Seq<(String, String)>) -> Map<Seq<char>, Seq<char>>
    decreases s.len(),
{
    if s.len() == 0 {
        Map::empty()
    } else {
        pairs_map(s.drop_last()).insert(s.last().0@, s.last().1@)
    }
}

/// No two pairs of the sequence carry the same name.
pub open spec fn distinct_names(s: Seq<(String, String)>) -> bool {
    forall|i: int, j: int| 0 <= i < j < s.len() ==> s[i].0@ != s[j].0@
}

pub proof fn lemma_pairs_map_dom(s: Seq<(String, String)>, n: Seq<char>)
    ensures
        pairs_map(s).dom().contains(n) <==> exists|i: int| 0 <= i < s.len() && s[i].0@ == n,
    decreases s.len(),
{
    if s.len() == 0 {
    } else {
        lemma_pairs_map_dom(s.drop_last(), n);
        if s.last().0@ == n {
            assert(s[s.len() - 1].0@ == n);
        } else {
            if exists|i: int| 0 <= i < s.drop_last().len() && s.drop_last()[i].0@ == n {
                let i = choose|i: int| 0 <= i < s.drop_last().len() && s.drop_last()[i].0@ == n;
                assert(s[i].0@ == n);
            }
            if exists|i: int| 0 <= i < s.len() && s[i].0@ == n {
                let i = choose|i: int| 0 <= i < s.len() && s[i].0@ == n;
                assert(i < s.len() - 1);
                assert(s.drop_last()[i].0@ == n);
            }
        }
    }
}

pub proof fn lemma_pairs_map_get(s: Seq<(String, String)>, k: int)
    requires
        0 <= k < s.len(),
        distinct_names(s),
    ensures
        pairs_map(s).dom().contains(s[k].0@),
        pairs_map(s)[s[k].0@] == s[k].1@,
    decreases s.len(),
{
    if k == s.len() - 1 {
    } else {
        assert(distinct_names(s.drop_last())) by {
            assert(forall|i: int, j: int|
                0 <= i < j < s.drop_last().len() ==> s.drop_last()[i].0@ == s[i].0@
                    && s.drop_last()[j].0@ == s[j].0@);
        }
        assert(s.drop_last()[k] == s[k]);
        lemma_pairs_map_get(s.drop_last(), k);
        assert(s.last().0@ != s[k].0@);
    }
}

pub proof fn lemma_pairs_map_remove(s: Seq<(String, String)>, k: int)
    requires
        0 <= k < s.len(),
        distinct_names(s),
    ensures
        pairs_map(s.remove(k)) =~= pairs_map(s).remove(s[k].0@),
    decreases s.len(),
{
    assert(distinct_names(s.drop_last())) by {
        assert(forall|i: int, j: int|
            0 <= i < j < s.drop_last().len() ==> s.drop_last()[i].0@ == s[i].0@
                && s.drop_last()[j].0@ == s[j].0@);
    }
    if k == s.len() - 1 {
        assert(s.remove(k) =~= s.drop_last());
        lemma_pairs_map_dom(s.drop_last(), s[k].0@);
        assert(forall|i: int| 0 <= i < s.drop_last().len() ==> s.drop_last()[i].0@ != s[k].0@);
        assert(!pairs_map(s.drop_last()).dom().contains(s[k].0@));
        assert(pairs_map(s.drop_last()) =~= pairs_map(s.drop_last()).insert(
            s.last().0@,
            s.last().1@,
        ).remove(s[k].0@));
    } else {
        assert(s.remove(k).drop_last() =~= s.drop_last().remove(k));
        assert(s.remove(k).last() == s.last());
        assert(s.drop_last()[k] == s[k]);
        lemma_pairs_map_remove(s.drop_last(), k);
        assert(s.last().0@ != s[k].0@);
        assert(pairs_map(s.remove(k)) =~= pairs_map(s.drop_last().remove(k)).insert(
            s.last().0@,
            s.last().1@,
        ));
        assert(pairs_map(s.drop_last()).remove(s[k].0@).insert(s.last().0@, s.last().1@)
            =~= pairs_map(s.drop_last()).insert(s.last().0@, s.last().1@).remove(s[k].0@));
    }
}

/// A set of HTTP headers with unique names.
#[derive(Debug)]
pub struct Headers {
    pairs: Vec<(String, String)>,
}

impl View for Headers {
    type V = Map<Seq<char>, Seq<char>>;

    closed spec fn view(&self) -> Map<Seq<char>, Seq<char>> {
        pairs_map(self.pairs@)
    }
}

impl Headers {
    /// The names in the set are pairwise distinct.
    pub closed spec fn wf(&self) -> bool {
        distinct_names(self.pairs@)
    }

    /// How many headers the set holds.
    pub closed spec fn count(&self) -> nat {
        self.pairs@.len()
    }

    pub fn new() -> (h: Headers)
        ensures
            h.wf(),
            h@ == Map::<Seq<char>, Seq<char>>::empty(),
            h.count() == 0,
    {
        Headers { pairs: Vec::new() }
    }

    /// The index of the pair that carries the given name, if any.
    fn find(&self, name: &str) -> (r: Option<usize>)
        requires
            self.wf(),
        ensures
            match r {
                Some(k) => k < self.pairs@.len() && self.pairs@[k as int].0@ == name@,
                None => forall|i: int| 0 <= i < self.pairs@.len() ==> self.pairs@[i].0@ != name@,
            },
    {
        let key = String::from_str(name);
        let mut i: usize = 0;
        while i < self.pairs.len()
            invariant
                i <= self.pairs@.len(),
                key@ == name@,
                forall|j: int| 0 <= j < i ==> self.pairs@[j].0@ != name@,
            decreases self.pairs@.len() - i,
        {
            if self.pairs[i].0 == key {
                return Some(i);
            }
            i += 1;
        }
        None
    }

    pub fn contains(&self, name: &str) -> (r: bool)
        requires
            self.wf(),
        ensures
            r == self@.dom().contains(name@),
    {
        proof {
            lemma_pairs_map_dom(self.pairs@, name@);
        }
        match self.find(name) {
            Some(_) => true,
            None => false,
        }
    }

    pub fn get(&self, name: &str) -> (r: Option<&String>)
        requires
            self.wf(),
        ensures
            match r {
                Some(v) => self@.dom().contains(name@) && self@[name@] == v@,
                None => !self@.dom().contains(name@),
            },
    {
        proof {
            lemma_pairs_map_dom(self.pairs@, name@);
        }
        match self.find(name) {
            Some(k) => {
                proof {
                    lemma_pairs_map_get(self.pairs@, k as int);
                }
                Some(&self.pairs[k].1)
            },
            None => None,
        }
    }

    /// Removes the header of the given name, if it is there.
    pub fn remove(&mut self, name: &str)
        requires
            old(self).wf(),
        ensures
            final(self).wf(),
            final(self)@ == old(self)@.remove(name@),
            !final(self)@.dom().contains(name@),
    {
        proof {
            lemma_pairs_map_dom(self.pairs@, name@);
        }
        match self.find(name) {
            Some(k) => {
                proof {
                    lemma_pairs_map_remove(self.pairs@, k as int);
                }
                let ghost before = self.pairs@;
                self.pairs.remove(k);
                proof {
                    assert(distinct_names(self.pairs@)) by {
                        assert(forall|i: int|
                            0 <= i < self.pairs@.len() ==> (#[trigger] self.pairs@[i]) == if i
                                < k as int {
                                before[i]
                            } else {
                                before[i + 1]
                            });
                    }
                    lemma_pairs_map_dom(self.pairs@, name@);
                    assert(forall|i: int|
                        0 <= i < self.pairs@.len() ==> self.pairs@[i].0@ != name@);
                }
            },
            None => {
                proof {
                    assert(self@ =~= old(self)@.remove(name@));
                }
            },
        }
    }

    /// Puts a header in the set, replacing one of the same name.
    pub fn insert(&mut self, name: &str, value: String)
        requires
            old(self).wf(),
        ensures
            final(self).wf(),
            final(self)@ == old(self)@.insert(name@, value@),
    {
        self.remove(name);
        proof {
            lemma_pairs_map_dom(self.pairs@, name@);
            assert(forall|i: int| 0 <= i < self.pairs@.len() ==> self.pairs@[i].0@ != name@);
        }
        let ghost before = self.pairs@;
        self.pairs.push((String::from_str(name), value));
        proof {
            assert(self.pairs@.drop_last() =~= before);
            assert(self@ =~= old(self)@.insert(name@, value@));
        }
    }

    /// An identical, independently owned header set.
    pub fn duplicate(&self) -> (r: Headers)
        requires
            self.wf(),
        ensures
            r.wf(),
            r@ == self@,
    {
        let mut out = Headers::new();
        let mut i: usize = 0;
        while i < self.pairs.len()
            invariant
                self.wf(),
                i <= self.pairs@.len(),
                out.wf(),
                out@ == pairs_map(self.pairs@.take(i as int)),
            decreases self.pairs@.len() - i,
        {
            let ghost prefix = self.pairs@.take(i as int);
            out.insert(self.pairs[i].0.as_str(), self.pairs[i].1.clone());
            proof {
                assert(self.pairs@.take(i as int + 1).drop_last() =~= prefix);
                assert(self.pairs@.take(i as int + 1).last() == self.pairs@[i as int]);
            }
            i += 1;
        }
        proof {
            assert(self.pairs@.take(self.pairs@.len() as int) =~= self.pairs@);
        }
        out
    }

    /// Puts every header of `other` in the set, replacing same-named ones.
    pub fn merge_from(&mut self, other: &Headers)
        requires
            old(self).wf(),
            other.wf(),
        ensures
            final(self).wf(),
            final(self)@ == old(self)@.union_prefer_right(other@),
    {
        let ghost others = other.pairs@;
        let mut i: usize = 0;
        while i < other.pairs.len()
            invariant
                other.wf(),
                others == other.pairs@,
                i <= others.len(),
                self.wf(),
                self@ == old(self)@.union_prefer_right(pairs_map(others.take(i as int))),
            decreases others.len() - i,
        {
            let ghost prefix = others.take(i as int);
            self.insert(other.pairs[i].0.as_str(), other.pairs[i].1.clone());
            proof {
                assert(others.take(i as int + 1).drop_last() =~= prefix);
                assert(others.take(i as int + 1).last() == others[i as int]);
                assert(old(self)@.union_prefer_right(pairs_map(prefix)).insert(
                    others[i as int].0@,
                    others[i as int].1@,
                ) =~= old(self)@.union_prefer_right(pairs_map(others.take(i as int + 1))));
            }
            i += 1;
        }
        proof {
            assert(others.take(others.len() as int) =~= others);
            assert(self@ =~= old(self)@.union_prefer_right(other@));
        }
    }

    pub fn len(&self) -> (n: usize)
        ensures
            n == self.count(),
    {
        self.pairs.len()
    }

    /// The name and value of the pair at an index, for walking the set.
    pub fn pair_at(&self, i: usize) -> (p: (&String, &String))
        requires
            self.wf(),
            i < self.count(),
        ensures
            self@.dom().contains(p.0@),
            self@[p.0@] == p.1@,
    {
        proof {
            lemma_pairs_map_get(self.pairs@, i as int);
        }
        (&self.pairs[i].0, &self.pairs[i].1)
    }
}

} // verus!
