//! Name-keyed storage for one category of the registry.
//!
//! A table is an association list from names to values. A value keeps the
//! position it was first inserted at, so a position is a stable handle: other
//! entries refer to a leaf value by its position and share it instead of
//! holding a copy.

use vstd::prelude::*;

verus! {

/// The position of the entry named `k` in an association list, if any.
pub open spec fn find<V>(s: Seq<(Seq<char>, V)>, k: Seq<char>) -> Option<int>
    decreases s.len(),
{
    if s.len() == 0 {
        None
    } else if s.last().0 == k {
        Some(s.len() - 1)
    } else {
        find(s.drop_last(), k)
    }
}

/// Whether an entry named `k` is present.
pub open spec fn contains<V>(s: Seq<(Seq<char>, V)>, k: Seq<char>) -> bool {
    find(s, k) is Some
}

/// The value bound to `k`, if any.
pub open spec fn lookup<V>(s: Seq<(Seq<char>, V)>, k: Seq<char>) -> Option<V> {
    match find(s, k) {
        Some(i) => Some(s[i].1),
        None => None,
    }
}

/// Binding `k` to `v`: an existing entry is replaced where it stands, a new one
/// is appended.
pub open spec fn bind<V>(s: Seq<(Seq<char>, V)>, k: Seq<char>, v: V) -> Seq<(Seq<char>, V)> {
    match find(s, k) {
        Some(i) => s.update(i, (k, v)),
        None => s.push((k, v)),
    }
}

pub proof fn lemma_find_bounds<V>(s: Seq<(Seq<char>, V)>, k: Seq<char>)
    ensures
        find(s, k) matches Some(i) ==> 0 <= i < s.len() && s[i].0 == k,
        find(s, k) is None ==> forall|j: int| 0 <= j < s.len() ==> s[j].0 != k,
    decreases s.len(),
{
    if s.len() > 0 && s.last().0 != k {
        lemma_find_bounds(s.drop_last(), k);
        if find(s, k) is None {
            assert forall|j: int| 0 <= j < s.len() implies s[j].0 != k by {
                if j < s.len() - 1 {
                    assert(s.drop_last()[j] == s[j]);
                }
            }
        }
    }
}

/// A sequence that agrees with `s` on the names of its entries finds the same
/// positions.
pub proof fn lemma_find_same_names<V>(s: Seq<(Seq<char>, V)>, t: Seq<(Seq<char>, V)>, k: Seq<char>)
    requires
        s.len() == t.len(),
        forall|j: int| 0 <= j < s.len() ==> s[j].0 == t[j].0,
    ensures
        find(s, k) == find(t, k),
    decreases s.len(),
{
    if s.len() > 0 && s.last().0 != k {
        lemma_find_same_names(s.drop_last(), t.drop_last(), k);
    }
}

/// What binding does to every name.
pub proof fn lemma_bind<V>(s: Seq<(Seq<char>, V)>, k: Seq<char>, v: V, q: Seq<char>)
    ensures
        q == k ==> lookup(bind(s, k, v), q) == Some(v),
        q != k ==> find(bind(s, k, v), q) == find(s, q),
        q != k ==> lookup(bind(s, k, v), q) == lookup(s, q),
        contains(s, q) ==> contains(bind(s, k, v), q),
        contains(bind(s, k, v), q) <==> (q == k || contains(s, q)),
{
    lemma_find_bounds(s, k);
    let t = bind(s, k, v);
    match find(s, k) {
        Some(i) => {
            lemma_find_same_names(s, t, q);
            lemma_find_same_names(s, t, k);
            lemma_find_bounds(t, k);
        },
        None => {
            assert(t.drop_last() =~= s);
            lemma_find_bounds(s, q);
        },
    }
    lemma_find_bounds(s, q);
    lemma_find_bounds(t, q);
}

/// A name-keyed table of values.
pub struct Table<V> {
    entries: Vec<(String, V)>,
}

impl<V: View> View for Table<V> {
    type V = Seq<(Seq<char>, V::V)>;

    closed spec fn view(&self) -> Seq<(Seq<char>, V::V)> {
        self.entries@.map_values(|e: (String, V)| (e.0@, e.1@))
    }
}

impl<V: View> Table<V> {
    /// An empty table.
    pub fn new() -> (r: Self)
        ensures
            r@ == Seq::<(Seq<char>, V::V)>::empty(),
    {
        let r = Table { entries: Vec::new() };
        assert(r@ =~= Seq::<(Seq<char>, V::V)>::empty());
        r
    }

    /// The number of entries.
    pub fn len(&self) -> (r: usize)
        ensures
            r == self@.len(),
    {
        self.entries.len()
    }

    /// The position of the entry named `name`: its handle.
    pub fn find(&self, name: &String) -> (r: Option<usize>)
        ensures
            r matches Some(i) ==> find(self@, name@) == Some(i as int),
            r is None ==> find(self@, name@) is None,
    {
        let ghost s = self@;
        assert(s.subrange(0, s.len() as int) =~= s);
        let mut i: usize = self.entries.len();
        while i > 0
            invariant
                i <= self.entries.len(),
                s == self@,
                find(s, name@) == find(s.subrange(0, i as int), name@),
            decreases i,
        {
            let ghost p = s.subrange(0, i as int);
            assert(p.last() == s[i - 1]);
            assert(s[i - 1].0 == self.entries@[i - 1].0@);
            if self.entries[i - 1].0 == *name {
                return Some(i - 1);
            }
            assert(p.drop_last() =~= s.subrange(0, i - 1));
            i = i - 1;
        }
        assert(s.subrange(0, 0) =~= Seq::<(Seq<char>, V::V)>::empty());
        None
    }

    /// The name of the entry at position `i`.
    pub fn name(&self, i: usize) -> (r: &String)
        requires
            i < self@.len(),
        ensures
            r@ == self@[i as int].0,
    {
        &self.entries[i].0
    }

    /// The value of the entry at position `i`.
    pub fn value(&self, i: usize) -> (r: &V)
        requires
            i < self@.len(),
        ensures
            r@ == self@[i as int].1,
    {
        &self.entries[i].1
    }

    /// The value bound to `name`, if any.
    pub fn get(&self, name: &String) -> (r: Option<&V>)
        ensures
            r matches Some(v) ==> lookup(self@, name@) == Some(v@),
            r is None ==> lookup(self@, name@) is None,
    {
        proof {
            lemma_find_bounds(self@, name@);
        }
        match self.find(name) {
            Some(i) => Some(self.value(i)),
            None => None,
        }
    }

    /// Binds `name` to `value`, replacing any earlier binding of the name.
    pub fn insert(&mut self, name: String, value: V)
        ensures
            final(self)@ == bind(old(self)@, name@, value@),
    {
        proof {
            lemma_find_bounds(self@, name@);
        }
        let ghost s = self@;
        match self.find(&name) {
            Some(i) => {
                self.entries.set(i, (name, value));
                assert(self@ =~= s.update(i as int, (name@, value@)));
            },
            None => {
                self.entries.push((name, value));
                assert(self@ =~= s.push((name@, value@)));
            },
        }
    }
}

} // verus!
