//! Records kept under a text key, in the order their keys were first seen.
//!
//! A key is found by its spelling. Where several records stand under one
//! spelling, which cannot come about through `ensure`, the first one is the
//! one that is found.

use vstd::prelude::*;

verus! {

/// The place of the first of `keys` that equals `key`.
pub open spec fn first_key(keys: Seq<Seq<char>>, key: Seq<char>) -> Option<nat>
    decreases keys.len(),
{
    if keys.len() == 0 {
        None
    } else if keys[0] == key {
        Some(0)
    } else {
        match first_key(keys.skip(1), key) {
            Some(place) => Some((place + 1) as nat),
            None => None,
        }
    }
}

/// What `first_key` finds is a place of `key`, and no earlier place is one.
pub proof fn lemma_first_key(keys: Seq<Seq<char>>, key: Seq<char>)
    ensures
        match first_key(keys, key) {
            Some(place) => {
                &&& place < keys.len()
                &&& keys[place as int] == key
                &&& forall|i: int| 0 <= i < place ==> keys[i] != key
            },
            None => forall|i: int| 0 <= i < keys.len() ==> keys[i] != key,
        },
    decreases keys.len(),
{
    if keys.len() > 0 && keys[0] != key {
        let rest = keys.skip(1);
        lemma_first_key(rest, key);
        assert forall|i: int| 0 <= i < rest.len() implies rest[i] == keys[i + 1] by {}
        match first_key(rest, key) {
            Some(place) => {
                assert forall|i: int| 0 <= i < place + 1 implies keys[i] != key by {
                    if i > 0 {
                        assert(rest[i - 1] != key);
                    }
                }
            },
            None => {
                assert forall|i: int| 0 <= i < keys.len() implies keys[i] != key by {
                    if i > 0 {
                        assert(rest[i - 1] != key);
                    }
                }
            },
        }
    }
}

/// A key that is not among `keys` is first found at the end once it is added.
pub proof fn lemma_first_key_pushed(keys: Seq<Seq<char>>, key: Seq<char>, other: Seq<char>)
    ensures
        first_key(keys.push(key), other) == match first_key(keys, other) {
            Some(place) => Some(place),
            None => if key == other {
                Some(keys.len())
            } else {
                None
            },
        },
    decreases keys.len(),
{
    let pushed = keys.push(key);
    if keys.len() == 0 {
        assert(pushed.skip(1) =~= Seq::<Seq<char>>::empty());
        assert(pushed[0] == key);
        assert(first_key(pushed.skip(1), other).is_none());
    } else {
        assert(pushed.skip(1) =~= keys.skip(1).push(key));
        assert(pushed[0] == keys[0]);
        lemma_first_key_pushed(keys.skip(1), key, other);
    }
}

/// Whether `later` starts with all of `earlier`, in order.
pub open spec fn keys_extend(earlier: Seq<Seq<char>>, later: Seq<Seq<char>>) -> bool {
    earlier.len() <= later.len() && later.take(earlier.len() as int) == earlier
}

/// A key keeps its first place when more keys are added at the end.
pub proof fn lemma_first_key_extended(
    earlier: Seq<Seq<char>>,
    later: Seq<Seq<char>>,
    key: Seq<char>,
)
    requires
        keys_extend(earlier, later),
        first_key(earlier, key).is_some(),
    ensures
        first_key(later, key) == first_key(earlier, key),
{
    lemma_first_key(earlier, key);
    lemma_first_key(later, key);
    let place = first_key(earlier, key).unwrap() as int;
    assert(later.take(earlier.len() as int)[place] == later[place]);
    assert forall|i: int| 0 <= i < place implies later[i] != key by {
        assert(later.take(earlier.len() as int)[i] == later[i]);
    }
}

/// A run of keys extends itself.
pub proof fn lemma_keys_extend_self(keys: Seq<Seq<char>>)
    ensures
        keys_extend(keys, keys),
{
    assert(keys.take(keys.len() as int) =~= keys);
}

/// Extending a run of keys is transitive.
pub proof fn lemma_keys_extend_order(
    first: Seq<Seq<char>>,
    second: Seq<Seq<char>>,
    third: Seq<Seq<char>>,
)
    requires
        keys_extend(first, second),
        keys_extend(second, third),
    ensures
        keys_extend(first, third),
{
    assert(third.take(first.len() as int) =~= third.take(second.len() as int).take(
        first.len() as int,
    ));
}

/// A record and the key it stands under.
pub struct Record<V> {
    pub key: String,
    pub value: V,
}

/// Records under text keys.
pub struct Keyed<V> {
    pub entries: Vec<Record<V>>,
}

/// The model of a keyed list: its keys and the models of its records, place
/// by place.
pub ghost struct KeyedView<T> {
    pub keys: Seq<Seq<char>>,
    pub values: Seq<T>,
}

impl<T> KeyedView<T> {
    pub open spec fn wf(self) -> bool {
        self.keys.len() == self.values.len()
    }

    pub open spec fn empty() -> KeyedView<T> {
        KeyedView { keys: Seq::empty(), values: Seq::empty() }
    }

    pub open spec fn contains(self, key: Seq<char>) -> bool {
        first_key(self.keys, key).is_some()
    }

    /// The record under `key`.
    pub open spec fn get(self, key: Seq<char>) -> T
        recommends
            self.contains(key),
    {
        self.values[first_key(self.keys, key).unwrap() as int]
    }

    /// The list with `value` in place of the record under `key`.
    pub open spec fn with(self, key: Seq<char>, value: T) -> KeyedView<T>
        recommends
            self.contains(key),
    {
        KeyedView {
            keys: self.keys,
            values: self.values.update(first_key(self.keys, key).unwrap() as int, value),
        }
    }

    /// The list with a record under `key`: the one it has, or else `fresh`
    /// at the end.
    pub open spec fn ensured(self, key: Seq<char>, fresh: T) -> KeyedView<T> {
        if self.contains(key) {
            self
        } else {
            KeyedView { keys: self.keys.push(key), values: self.values.push(fresh) }
        }
    }
}

impl<T> KeyedView<T> {
    /// Whether no key stands at two places.
    pub open spec fn one_record_per_key(self) -> bool {
        forall|i: int, j: int|
            0 <= i < j < self.keys.len() ==> #[trigger] self.keys[i] != #[trigger] self.keys[j]
    }

    /// Making sure of a record never puts a second record under a key.
    pub proof fn lemma_ensured_keeps_one_record(self, key: Seq<char>, fresh: T)
        requires
            self.one_record_per_key(),
        ensures
            self.ensured(key, fresh).one_record_per_key(),
    {
        lemma_first_key(self.keys, key);
    }

    /// Putting a record under a key that is there keeps the keys, and
    /// changes the record at the key's first place alone.
    pub proof fn lemma_with(self, key: Seq<char>, value: T)
        requires
            self.wf(),
            self.contains(key),
        ensures
            self.with(key, value).wf(),
            self.with(key, value).keys == self.keys,
            self.with(key, value).contains(key),
            self.with(key, value).get(key) == value,
            first_key(self.keys, key).unwrap() < self.values.len(),
            forall|i: int|
                0 <= i < self.values.len() && i != first_key(self.keys, key).unwrap()
                    ==> #[trigger] self.with(key, value).values[i] == self.values[i],
    {
        lemma_first_key(self.keys, key);
    }

    /// Making sure of a record keeps every record that was there at its
    /// place, adds at most one at the end, and leaves a record under the key.
    pub proof fn lemma_ensured(self, key: Seq<char>, fresh: T)
        requires
            self.wf(),
        ensures
            self.ensured(key, fresh).wf(),
            keys_extend(self.keys, self.ensured(key, fresh).keys),
            self.ensured(key, fresh).contains(key),
            forall|i: int|
                0 <= i < self.values.len() ==> #[trigger] self.ensured(key, fresh).values[i]
                    == self.values[i],
            self.contains(key) ==> self.ensured(key, fresh).get(key) == self.get(key),
            !self.contains(key) ==> self.ensured(key, fresh).get(key) == fresh,
    {
        lemma_first_key(self.keys, key);
        if !self.contains(key) {
            lemma_first_key_pushed(self.keys, key, key);
            assert(self.keys.push(key).take(self.keys.len() as int) =~= self.keys);
        } else {
            assert(self.keys.take(self.keys.len() as int) =~= self.keys);
        }
    }

    /// Putting a record where it already stands changes nothing.
    pub proof fn lemma_with_same(self, key: Seq<char>)
        requires
            self.wf(),
            self.contains(key),
        ensures
            self.with(key, self.get(key)) == self,
    {
        lemma_first_key(self.keys, key);
        assert(self.with(key, self.get(key)).values =~= self.values);
    }
}

impl<V: View> View for Keyed<V> {
    type V = KeyedView<V::V>;

    open spec fn view(&self) -> KeyedView<V::V> {
        KeyedView {
            keys: self.entries@.map_values(|e: Record<V>| e.key@),
            values: self.entries@.map_values(|e: Record<V>| e.value@),
        }
    }
}

impl<V: View> Keyed<V> {
    /// After a change to the record at `place` alone, the list is the old
    /// list with the new record there.
    pub proof fn lemma_changed_at(self, before: Keyed<V>, place: int)
        requires
            0 <= place < before.entries.len(),
            self.entries.len() == before.entries.len(),
            forall|i: int|
                0 <= i < before.entries.len() ==> (#[trigger] self.entries[i]).key
                    == before.entries[i].key,
            forall|i: int|
                0 <= i < before.entries.len() && i != place ==> (#[trigger] self.entries[i]).value
                    == before.entries[i].value,
        ensures
            self@.keys == before@.keys,
            self@.values == before@.values.update(place, self.entries[place].value@),
    {
        assert(self@.keys =~= before@.keys);
        assert(self@.values =~= before@.values.update(place, self.entries[place].value@));
    }

    /// A list has as many records as keys.
    pub proof fn lemma_wf(self)
        ensures
            self@.wf(),
    {
    }

    pub fn new() -> (list: Keyed<V>)
        ensures
            list@ == KeyedView::<V::V>::empty(),
    {
        let list = Keyed { entries: Vec::new() };
        assert(list@.keys =~= Seq::empty());
        assert(list@.values =~= Seq::empty());
        list
    }

    /// The place of the record under `key`, if there is one.
    pub fn find(&self, key: &str) -> (found: Option<usize>)
        ensures
            self@.wf(),
            match found {
                Some(place) => first_key(self@.keys, key@) == Some(place as nat) && place
                    < self.entries.len(),
                None => !self@.contains(key@),
            },
    {
        let wanted = key.to_owned();
        let ghost keys = self@.keys;
        assert(keys.skip(0) =~= keys);
        let mut i: usize = 0;
        while i < self.entries.len()
            invariant
                i <= self.entries.len(),
                wanted@ == key@,
                keys == self@.keys,
                first_key(keys, key@) == match first_key(keys.skip(i as int), key@) {
                    Some(place) => Some((place + i) as nat),
                    None => None,
                },
            decreases self.entries.len() - i,
        {
            assert(keys.skip(i as int)[0] == self.entries[i as int].key@);
            assert(keys.skip(i as int).skip(1) =~= keys.skip(i + 1));
            if self.entries[i].key == wanted {
                return Some(i);
            }
            i += 1;
        }
        None
    }

    /// Makes sure that there is a record under `key`, with `fresh` where
    /// there was none, and gives its place.
    pub fn ensure(&mut self, key: &str, fresh: V) -> (place: usize)
        ensures
            final(self)@ == old(self)@.ensured(key@, fresh@),
            first_key(final(self)@.keys, key@) == Some(place as nat),
            place < final(self).entries.len(),
    {
        match self.find(key) {
            Some(place) => place,
            None => {
                let place = self.entries.len();
                proof {
                    lemma_first_key_pushed(self@.keys, key@, key@);
                }
                self.entries.push(Record { key: key.to_owned(), value: fresh });
                assert(self@.keys =~= old(self)@.keys.push(key@));
                assert(self@.values =~= old(self)@.values.push(fresh@));
                place
            },
        }
    }
}

} // verus!
