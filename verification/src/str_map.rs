//! A name-keyed map backed by a vector of entries. A later entry for a key
//! shadows an earlier one, so inserting is a plain push; lookups scan from
//! the newest entry backwards. Its view is the mathematical `Map` obtained
//! by inserting the entries in order.

use vstd::prelude::*;

verus! {

/// The map described by a sequence of entries, later entries shadowing
/// earlier ones.
pub open spec fn assoc_map<V: View>(s: Seq<(String, V)>) -> Map<Seq<char>, V::V>
    decreases s.len(),
{
    if s.len() == 0 {
        Map::empty()
    } else {
        assoc_map(s.drop_last()).insert(s.last().0@, s.last().1@)
    }
}

proof fn lemma_assoc_map_found<V: View>(s: Seq<(String, V)>, k: Seq<char>, j: int)
    requires
        0 <= j < s.len(),
        s[j].0@ == k,
        forall|l: int| j < l < s.len() ==> (#[trigger] s[l]).0@ != k,
    ensures
        assoc_map(s).contains_key(k),
        assoc_map(s)[k] == s[j].1@,
    decreases s.len(),
{
    if j == s.len() - 1 {
    } else {
        lemma_assoc_map_found(s.drop_last(), k, j);
    }
}

proof fn lemma_assoc_map_absent<V: View>(s: Seq<(String, V)>, k: Seq<char>)
    requires
        forall|l: int| 0 <= l < s.len() ==> (#[trigger] s[l]).0@ != k,
    ensures
        !assoc_map(s).contains_key(k),
    decreases s.len(),
{
    if s.len() > 0 {
        lemma_assoc_map_absent(s.drop_last(), k);
    }
}

/// A map from names to values of type `V`.
pub struct StrMap<V> {
    entries: Vec<(String, V)>,
}

impl<V: View> View for StrMap<V> {
    type V = Map<Seq<char>, V::V>;

    closed spec fn view(&self) -> Map<Seq<char>, V::V> {
        assoc_map(self.entries@)
    }
}

impl<V: View> StrMap<V> {
    /// An empty map.
    pub fn new() -> (r: Self)
        ensures
            r@ == Map::<Seq<char>, V::V>::empty(),
    {
        StrMap { entries: Vec::new() }
    }

    /// Binds `k` to `v`, shadowing any earlier binding of `k`.
    pub fn insert(&mut self, k: String, v: V)
        ensures
            final(self)@ == old(self)@.insert(k@, v@),
    {
        proof {
            let s = self.entries@;
            let e = (k, v);
            assert(s.push(e).drop_last() =~= s);
        }
        self.entries.push((k, v));
    }

    /// The value bound to `k`, if any.
    pub fn get(&self, k: &String) -> (r: Option<&V>)
        ensures
            match r {
                Some(v) => self@.contains_key(k@) && v@ == self@[k@],
                None => !self@.contains_key(k@),
            },
    {
        let n = self.entries.len();
        let mut i = n;
        while i > 0
            invariant
                i <= n,
                n == self.entries@.len(),
                forall|l: int| i <= l < n ==> (#[trigger] self.entries@[l]).0@ != k@,
            decreases i,
        {
            i = i - 1;
            if self.entries[i].0 == *k {
                proof {
                    lemma_assoc_map_found(self.entries@, k@, i as int);
                }
                return Some(&self.entries[i].1);
            }
        }
        proof {
            lemma_assoc_map_absent(self.entries@, k@);
        }
        None
    }

    /// Removes every binding.
    pub fn clear(&mut self)
        ensures
            final(self)@ == Map::<Seq<char>, V::V>::empty(),
    {
        self.entries.clear();
    }
}

} // verus!
