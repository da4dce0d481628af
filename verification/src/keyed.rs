//! Values kept per string key (per notification, per shortcut binding), with a map view.

use vstd::prelude::*;
use crate::text::str_equals;

verus! {

/// Values stored under string keys; a key set again replaces its value.
pub struct KeyedValues<V> {
    entries: Vec<(String, V)>,
}

/// The value recorded last for `key`.
pub open spec fn last_value<V>(s: Seq<(String, V)>, key: Seq<char>) -> Option<V>
    decreases s.len(),
{
    if s.len() == 0 {
        None
    } else if s.last().0@ == key {
        Some(s.last().1)
    } else {
        last_value(s.drop_last(), key)
    }
}

impl<V> View for KeyedValues<V> {
    type V = Map<Seq<char>, V>;

    closed spec fn view(&self) -> Map<Seq<char>, V> {
        Map::new(
            |key: Seq<char>| last_value(self.entries@, key) is Some,
            |key: Seq<char>| last_value(self.entries@, key)->0,
        )
    }
}

proof fn lemma_last_value_update<V>(s: Seq<(String, V)>, i: int, e: (String, V), key: Seq<char>)
    requires
        0 <= i < s.len(),
        s[i].0@ == key,
        e.0@ == key,
        forall|j: int| i < j < s.len() ==> (#[trigger] s[j]).0@ != key,
    ensures
        last_value(s.update(i, e), key) == Some(e.1),
        forall|k: Seq<char>| k != key ==> #[trigger] last_value(s.update(i, e), k) == last_value(s, k),
    decreases s.len(),
{
    let t = s.update(i, e);
    if i < s.len() - 1 {
        assert(t.drop_last() =~= s.drop_last().update(i, e));
        lemma_last_value_update(s.drop_last(), i, e, key);
        assert(s[s.len() - 1].0@ != key);
        assert(t.last() == s.last());
        assert forall|k: Seq<char>| k != key implies #[trigger] last_value(t, k) == last_value(s, k) by {
            assert(last_value(t.drop_last(), k) == last_value(s.drop_last(), k));
        }
    } else {
        assert(t.drop_last() =~= s.drop_last());
        assert forall|k: Seq<char>| k != key implies #[trigger] last_value(t, k) == last_value(s, k) by {
            assert(t.last().0@ == key);
        }
    }
}

proof fn lemma_last_value_found<V>(s: Seq<(String, V)>, i: int, key: Seq<char>)
    requires
        0 <= i < s.len(),
        s[i].0@ == key,
        forall|j: int| i < j < s.len() ==> (#[trigger] s[j]).0@ != key,
    ensures
        last_value(s, key) == Some(s[i].1),
    decreases s.len(),
{
    if i < s.len() - 1 {
        assert(s[s.len() - 1].0@ != key);
        lemma_last_value_found(s.drop_last(), i, key);
    }
}

proof fn lemma_last_value_absent<V>(s: Seq<(String, V)>, key: Seq<char>)
    requires
        forall|j: int| 0 <= j < s.len() ==> (#[trigger] s[j]).0@ != key,
    ensures
        last_value(s, key) is None,
    decreases s.len(),
{
    if s.len() > 0 {
        assert(s[s.len() - 1].0@ != key);
        lemma_last_value_absent(s.drop_last(), key);
    }
}

impl<V: Copy> KeyedValues<V> {
    /// No key has a value.
    pub fn new() -> (r: Self)
        ensures
            r@ == Map::<Seq<char>, V>::empty(),
    {
        let r = KeyedValues { entries: Vec::new() };
        assert(r@ =~= Map::<Seq<char>, V>::empty());
        r
    }

    fn position(&self, key: &str) -> (r: Option<usize>)
        ensures
            match r {
                Some(i) => i < self.entries.len() && self.entries@[i as int].0@ == key@
                    && forall|j: int| i < j < self.entries@.len() ==> (
                    #[trigger] self.entries@[j]).0@ != key@,
                None => last_value(self.entries@, key@) is None,
            },
    {
        let mut k: usize = self.entries.len();
        while k > 0
            invariant
                k <= self.entries.len(),
                forall|j: int| k <= j < self.entries.len() ==> (#[trigger] self.entries@[j]).0@
                    != key@,
            decreases k,
        {
            if str_equals(self.entries[k - 1].0.as_str(), key) {
                return Some(k - 1);
            }
            k = k - 1;
        }
        proof {
            lemma_last_value_absent(self.entries@, key@);
        }
        None
    }

    /// The value under `key`, if any.
    pub fn get(&self, key: &str) -> (r: Option<V>)
        ensures
            r == (if self@.contains_key(key@) {
                Some(self@[key@])
            } else {
                None
            }),
    {
        match self.position(key) {
            Some(i) => {
                proof {
                    lemma_last_value_found(self.entries@, i as int, key@);
                }
                Some(self.entries[i].1)
            },
            None => None,
        }
    }

    /// Sets the value under `key`.
    pub fn set(&mut self, key: &str, value: V)
        ensures
            final(self)@ == old(self)@.insert(key@, value),
    {
        let ghost before = self.entries@;
        let found = self.position(key);
        let e = (key.to_string(), value);
        match found {
            Some(i) => {
                proof {
                    lemma_last_value_update(before, i as int, e, key@);
                }
                self.entries.set(i, e);
            },
            None => {
                self.entries.push(e);
                assert(self.entries@.drop_last() =~= before);
            },
        }
        assert(self@ =~= old(self)@.insert(key@, value));
    }
}

} // verus!
