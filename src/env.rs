//! A map from environment-variable names to values.
use vstd::prelude::*;

use crate::text::{owned, same_text};

verus! {

/// The names and values of a list of pairs.
pub open spec fn pair_views(s: Seq<(String, String)>) -> Seq<(Seq<char>, Seq<char>)> {
    s.map_values(|p: (String, String)| (p.0@, p.1@))
}

/// The map that a list of pairs holds, a later pair overriding an earlier one.
pub open spec fn map_of(s: Seq<(Seq<char>, Seq<char>)>) -> Map<Seq<char>, Seq<char>>
    decreases s.len(),
{
    if s.len() == 0 {
        Map::empty()
    } else {
        map_of(s.drop_last()).insert(s.last().0, s.last().1)
    }
}

/// No two pairs of `s` share a key.
pub open spec fn distinct_keys(s: Seq<(Seq<char>, Seq<char>)>) -> bool {
    forall|i: int, j: int| 0 <= i < j < s.len() ==> (#[trigger] s[i]).0 != (#[trigger] s[j]).0
}

/// A key is in the map exactly when some pair has it.
proof fn lemma_map_dom(s: Seq<(Seq<char>, Seq<char>)>, k: Seq<char>)
    ensures
        map_of(s).dom().contains(k) <==> exists|i: int| 0 <= i < s.len() && (#[trigger] s[i]).0 == k,
    decreases s.len(),
{
    if s.len() > 0 {
        lemma_map_dom(s.drop_last(), k);
        if map_of(s.drop_last()).dom().contains(k) {
            let i = choose|i: int| 0 <= i < s.drop_last().len() && (#[trigger] s.drop_last()[i]).0 == k;
            assert(s[i].0 == k);
        }
        if exists|i: int| 0 <= i < s.len() && (#[trigger] s[i]).0 == k {
            let i = choose|i: int| 0 <= i < s.len() && (#[trigger] s[i]).0 == k;
            if i < s.len() - 1 {
                assert(s.drop_last()[i].0 == k);
            }
        }
    }
}

/// With distinct keys, the map gives each pair's key that pair's value.
proof fn lemma_map_get(s: Seq<(Seq<char>, Seq<char>)>, i: int)
    requires
        distinct_keys(s),
        0 <= i < s.len(),
    ensures
        map_of(s).dom().contains(s[i].0),
        map_of(s)[s[i].0] == s[i].1,
    decreases s.len(),
{
    if i < s.len() - 1 {
        assert(distinct_keys(s.drop_last()));
        lemma_map_get(s.drop_last(), i);
        assert(s.drop_last()[i] == s[i]);
    }
}

/// With distinct keys, changing the value of one pair changes the value of its key.
proof fn lemma_map_update(s: Seq<(Seq<char>, Seq<char>)>, i: int, v: Seq<char>)
    requires
        distinct_keys(s),
        0 <= i < s.len(),
    ensures
        map_of(s.update(i, (s[i].0, v))) == map_of(s).insert(s[i].0, v),
    decreases s.len(),
{
    let t = s.update(i, (s[i].0, v));
    if i == s.len() - 1 {
        assert(t.drop_last() =~= s.drop_last());
        assert(map_of(t) =~= map_of(s).insert(s[i].0, v));
    } else {
        assert(distinct_keys(s.drop_last()));
        lemma_map_update(s.drop_last(), i, v);
        assert(t.drop_last() =~= s.drop_last().update(i, (s[i].0, v)));
        assert(s[i].0 != s.last().0);
        assert(map_of(t) =~= map_of(s).insert(s[i].0, v));
    }
}

/// Environment-variable names and their values; a name appears at most once.
#[derive(Debug)]
pub struct EnvVars {
    entries: Vec<(String, String)>,
}

impl View for EnvVars {
    type V = Map<Seq<char>, Seq<char>>;

    closed spec fn view(&self) -> Map<Seq<char>, Seq<char>> {
        map_of(pair_views(self.entries@))
    }
}

impl EnvVars {
    #[verifier::type_invariant]
    spec fn inv(&self) -> bool {
        distinct_keys(pair_views(self.entries@))
    }

    /// An empty map.
    pub fn new() -> (r: Self)
        ensures
            r@ == Map::<Seq<char>, Seq<char>>::empty(),
    {
        EnvVars { entries: Vec::new() }
    }

    /// Where `key` stands among the entries.
    fn position(&self, key: &str) -> (r: Option<usize>)
        ensures
            r matches Some(i) ==> i < self.entries@.len() && pair_views(self.entries@)[i as int].0 == key@,
            r is None ==> forall|i: int|
                0 <= i < self.entries@.len() ==> (#[trigger] pair_views(self.entries@)[i]).0 != key@,
    {
        let mut i: usize = 0;
        while i < self.entries.len()
            invariant
                i <= self.entries@.len(),
                forall|j: int| 0 <= j < i ==> (#[trigger] pair_views(self.entries@)[j]).0 != key@,
            decreases self.entries@.len() - i,
        {
            if same_text(self.entries[i].0.as_str(), key) {
                return Some(i);
            }
            i += 1;
        }
        None
    }

    /// Whether `key` has a value.
    pub fn contains_key(&self, key: &str) -> (r: bool)
        ensures
            r == self@.dom().contains(key@),
    {
        proof {
            lemma_map_dom(pair_views(self.entries@), key@);
        }
        self.position(key).is_some()
    }

    /// The value of `key`, if it has one.
    pub fn get(&self, key: &str) -> (r: Option<&String>)
        ensures
            r matches Some(v) ==> self@.dom().contains(key@) && self@[key@] == v@,
            r is None ==> !self@.dom().contains(key@),
    {
        proof {
            use_type_invariant(self);
            lemma_map_dom(pair_views(self.entries@), key@);
        }
        match self.position(key) {
            Some(i) => {
                proof {
                    lemma_map_get(pair_views(self.entries@), i as int);
                }
                Some(&self.entries[i].1)
            },
            None => None,
        }
    }

    /// Gives `key` the value `value`, replacing any value it had.
    pub fn insert(&mut self, key: String, value: String)
        ensures
            final(self)@ == old(self)@.insert(key@, value@),
    {
        proof {
            use_type_invariant(&*self);
        }
        let pos = self.position(key.as_str());
        let ghost old_views = pair_views(self.entries@);
        let mut v: Vec<(String, String)> = Vec::new();
        let mut j: usize = 0;
        while j < self.entries.len()
            invariant
                j <= self.entries@.len(),
                old_views == pair_views(self.entries@),
                pos matches Some(p) ==> p < old_views.len() && old_views[p as int].0 == key@,
                distinct_keys(old_views),
                v@.len() == j,
                forall|t: int|
                    0 <= t < j ==> ((#[trigger] v@[t]).0@, v@[t].1@) == if pos == Some(t as usize) {
                        (key@, value@)
                    } else {
                        old_views[t]
                    },
            decreases self.entries@.len() - j,
        {
            if pos == Some(j) {
                v.push((owned(key.as_str()), owned(value.as_str())));
            } else {
                v.push((owned(self.entries[j].0.as_str()), owned(self.entries[j].1.as_str())));
            }
            j += 1;
        }
        match pos {
            Some(p) => {
                proof {
                    lemma_map_update(old_views, p as int, value@);
                    assert(pair_views(v@) =~= old_views.update(p as int, (old_views[p as int].0, value@)));
                    assert forall|a: int, b: int| 0 <= a < b < pair_views(v@).len() implies
                        (#[trigger] pair_views(v@)[a]).0 != (#[trigger] pair_views(v@)[b]).0 by {
                        assert(old_views[a].0 != old_views[b].0);
                    }
                }
            },
            None => {
                v.push((key, value));
                proof {
                    assert(pair_views(v@).drop_last() =~= old_views);
                    assert(pair_views(v@).last() == (key@, value@));
                    assert forall|a: int, b: int| 0 <= a < b < pair_views(v@).len() implies
                        (#[trigger] pair_views(v@)[a]).0 != (#[trigger] pair_views(v@)[b]).0 by {
                        if b < old_views.len() {
                            assert(old_views[a].0 != old_views[b].0);
                        } else {
                            assert(pair_views(v@)[a] == old_views[a]);
                        }
                    }
                }
            },
        }
        self.entries = v;
    }

    /// The names and values, each name once, in the order the names were first given.
    pub fn entries(&self) -> (r: &Vec<(String, String)>)
        ensures
            map_of(pair_views(r@)) == self@,
            distinct_keys(pair_views(r@)),
    {
        proof {
            use_type_invariant(self);
        }
        &self.entries
    }
}

impl Clone for EnvVars {
    /// A copy with the same names and values.
    fn clone(&self) -> (r: Self)
        ensures
            r@ == self@,
    {
        proof {
            use_type_invariant(self);
        }
        let mut entries: Vec<(String, String)> = Vec::new();
        let mut i: usize = 0;
        while i < self.entries.len()
            invariant
                i <= self.entries@.len(),
                distinct_keys(pair_views(self.entries@)),
                pair_views(entries@) == pair_views(self.entries@).take(i as int),
            decreases self.entries@.len() - i,
        {
            let ghost before = entries@;
            entries.push((owned(self.entries[i].0.as_str()), owned(self.entries[i].1.as_str())));
            assert(entries@ == before.push(entries@.last()));
            assert(pair_views(entries@) =~= pair_views(before).push(pair_views(self.entries@)[i as int]));
            i += 1;
            assert(pair_views(entries@) =~= pair_views(self.entries@).take(i as int));
        }
        assert(pair_views(self.entries@).take(i as int) =~= pair_views(self.entries@));
        EnvVars { entries }
    }
}

} // verus!
