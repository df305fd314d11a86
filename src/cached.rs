use vstd::prelude::*;
use vstd::std_specs::cmp::PartialEqSpec;

verus! {

/// Store a cached key/value pair, only recalculating when the key changes.
pub struct Cached<K: PartialEq + Clone, V> {
    contents: Option<(K, V)>,
}

impl<K: PartialEq + Clone, V> Cached<K, V> {
    /// What the cache holds: nothing, or one key with the value made from it.
    pub closed spec fn contents(&self) -> Option<(K, V)> {
        self.contents
    }

    pub fn new() -> (r: Cached<K, V>)
        ensures
            r.contents() is None,
    {
        Cached { contents: None }
    }

    /// Get the current key.
    pub fn key(&self) -> (r: Option<K>)
        ensures
            r is Some <==> self.contents() is Some,
            r is Some ==> cloned(self.contents().unwrap().0, r.unwrap()),
    {
        match &self.contents {
            Some(kv) => Some(kv.0.clone()),
            None => None,
        }
    }

    /// Get the current value.
    pub fn value(&self) -> (r: Option<&V>)
        ensures
            r is Some <==> self.contents() is Some,
            r is Some ==> *r.unwrap() == self.contents().unwrap().1,
    {
        match &self.contents {
            Some(kv) => Some(&kv.1),
            None => None,
        }
    }

    /// Update the value if the key has changed.
    pub fn update<F: FnMut(K) -> V>(&mut self, key: Option<K>, mut produce_value: F)
        requires
            forall|k: K| produce_value.requires((k,)),
        ensures
            key is None ==> final(self).contents() is None,
            key is Some && old(self).contents() is Some && K::obeys_eq_spec()
                && old(self).contents().unwrap().0.eq_spec(&key.unwrap())
                ==> final(self).contents() == old(self).contents(),
            key is Some && (old(self).contents() is None || (K::obeys_eq_spec()
                && !old(self).contents().unwrap().0.eq_spec(&key.unwrap())))
                ==> final(self).contents() is Some && cloned(
                key.unwrap(),
                final(self).contents().unwrap().0,
            ) && produce_value.ensures((key.unwrap(),), final(self).contents().unwrap().1),
            key is Some ==> final(self).contents() is Some && (final(self).contents() == old(self).contents()
                || (cloned(key.unwrap(), final(self).contents().unwrap().0) && produce_value.ensures(
                (key.unwrap(),),
                final(self).contents().unwrap().1,
            ))),
    {
        match key {
            Some(new_key) => {
                let same = match &self.contents {
                    Some(kv) => kv.0 == new_key,
                    None => false,
                };
                if !same {
                    let k = new_key.clone();
                    let v = produce_value(new_key);
                    self.contents = Some((k, v));
                }
            },
            None => {
                self.contents = None;
            },
        }
    }

    pub fn clear(&mut self)
        ensures
            final(self).contents() is None,
    {
        self.contents = None;
    }
}

} // verus!
