use vstd::prelude::*;

verus! {

/// An item the store can hold: duplication must preserve the mathematical
/// value.
pub trait StoreItem: View + Sized {
    /// A copy with the same mathematical value.
    fn dup(&self) -> (r: Self)
        ensures
            r@ == self@,
    ;
}

/// A key of the store: executable equality must decide equality of the
/// mathematical values.
pub trait StoreKey: StoreItem {
    /// Whether the two keys have the same mathematical value.
    fn key_eq(&self, other: &Self) -> (r: bool)
        ensures
            r == (self@ == other@),
    ;
}

/// A little key-value store, viewed as a mathematical map from key views
/// to value views. Writes append; a read takes the latest write for its
/// key. The store lives for at most two generations (see the state
/// module), so it stays small.
pub struct KvList<K: StoreKey, V: StoreItem> {
    entries: Vec<(K, V)>,
}

impl<K: StoreKey, V: StoreItem> KvList<K, V> {
    pub closed spec fn map_of(s: Seq<(K, V)>) -> Map<K::V, V::V>
        decreases s.len(),
    {
        if s.len() == 0 {
            Map::empty()
        } else {
            Self::map_of(s.drop_last()).insert(s.last().0@, s.last().1@)
        }
    }

    /// The empty store.
    pub fn empty() -> (r: Self)
        ensures
            r@ == Map::<K::V, V::V>::empty(),
    {
        KvList { entries: Vec::new() }
    }

    /// Records a value for a key, superseding any earlier value for it.
    pub fn put(&mut self, k: K, v: V)
        ensures
            final(self)@ == old(self)@.insert(k@, v@),
    {
        let ghost gk = k@;
        let ghost gv = v@;
        self.entries.push((k, v));
        proof {
            assert(self.entries@.drop_last() =~= old(self).entries@);
            assert(self.entries@.last().0@ == gk);
            assert(self.entries@.last().1@ == gv);
        }
    }

    /// The latest value recorded for the key, if any.
    pub fn read(&self, k: &K) -> (r: Option<V>)
        ensures
            (match r {
                Some(v) => self@.contains_key(k@) && v@ == self@[k@],
                None => !self@.contains_key(k@),
            }),
    {
        let n = self.entries.len();
        let mut i = n;
        while i > 0
            invariant
                i <= n,
                n == self.entries.len(),
                forall|j: int| i <= j < n ==> self.entries@[j].0@ != k@,
            decreases i,
        {
            i = i - 1;
            if self.entries[i].0.key_eq(k) {
                let value = self.entries[i].1.dup();
                proof {
                    Self::lemma_lookup_ignores_unmatched(self.entries@, k@, i as int + 1);
                    assert(self.entries@.take(i as int + 1).drop_last() =~= self.entries@.take(
                        i as int,
                    ));
                    assert(self.entries@.take(i as int + 1).last() == self.entries@[i as int]);
                }
                return Some(value);
            }
        }
        proof {
            Self::lemma_lookup_ignores_unmatched(self.entries@, k@, 0);
            assert(self.entries@.take(0) =~= Seq::<(K, V)>::empty());
        }
        None
    }

    /// Whether any value is recorded for the key.
    pub fn contains(&self, k: &K) -> (r: bool)
        ensures
            r == self@.contains_key(k@),
    {
        self.read(k).is_some()
    }

    /// Entries past `i` that do not match the key leave the lookup of that
    /// key unchanged.
    proof fn lemma_lookup_ignores_unmatched(s: Seq<(K, V)>, kv: K::V, i: int)
        requires
            0 <= i <= s.len(),
            forall|j: int| i <= j < s.len() ==> s[j].0@ != kv,
        ensures
            Self::map_of(s).contains_key(kv) == Self::map_of(s.take(i)).contains_key(kv),
            Self::map_of(s).contains_key(kv) ==> Self::map_of(s)[kv] == Self::map_of(s.take(i))[kv],
        decreases s.len() - i,
    {
        if i < s.len() {
            assert(s.drop_last().take(i) =~= s.take(i));
            Self::lemma_lookup_ignores_unmatched(s.drop_last(), kv, i);
            assert(s.last().0@ != kv);
        } else {
            assert(s.take(i) =~= s);
        }
    }
}

impl<K: StoreKey, V: StoreItem> View for KvList<K, V> {
    type V = Map<K::V, V::V>;

    closed spec fn view(&self) -> Map<K::V, V::V> {
        Self::map_of(self.entries@)
    }
}

} // verus!
