use crate::error::KeyArrayError;
use vstd::prelude::*;

verus! {

/// The mathematical content of a [`KeyArray`]: the keys in order and the
/// position of the current one.
pub struct KeyArrayView<K> {
    pub items: Seq<K>,
    pub cursor: nat,
}

impl<K> KeyArrayView<K> {
    /// The cursor points at one of the items, so there is at least one.
    pub open spec fn valid(self) -> bool {
        self.cursor < self.items.len()
    }

    /// The item under the cursor.
    pub open spec fn current(self) -> K
        recommends
            self.valid(),
    {
        self.items[self.cursor as int]
    }
}

/// A row of keys, exactly one of which is current.
pub struct KeyArray<K> {
    keys: Vec<K>,
    idx: usize,
}

impl<K> View for KeyArray<K> {
    type V = KeyArrayView<K>;

    closed spec fn view(&self) -> KeyArrayView<K> {
        KeyArrayView { items: self.keys@, cursor: self.idx as nat }
    }
}

impl<K> KeyArray<K> {
    /// Well-formedness: the list is not empty and the cursor lies inside it.
    /// The constructors establish it and every operation keeps it.
    pub open spec fn wf(&self) -> bool {
        self@.valid()
    }

    /// Builds a key array whose first key is current.
    ///
    /// Fails with `EmptyInput` exactly when `keys` is empty.
    pub fn new(keys: Vec<K>) -> (r: Result<Self, KeyArrayError>)
        ensures
            match r {
                Ok(ka) => {
                    &&& keys@.len() > 0
                    &&& ka.wf()
                    &&& ka@.items == keys@
                    &&& ka@.cursor == 0
                    &&& ka@.current() == keys@[0]
                },
                Err(e) => keys@.len() == 0 && e == KeyArrayError::EmptyInput,
            },
    {
        if keys.len() == 0 {
            return Err(KeyArrayError::EmptyInput);
        }
        Ok(KeyArray { keys, idx: 0 })
    }

    /// Builds a key array whose key at `start_idx` is current.
    ///
    /// Fails with `EmptyInput` exactly when `keys` is empty, and with
    /// `IndexOutOfRange` exactly when it is not empty and `start_idx` is not
    /// the index of one of its keys.
    pub fn new_with(keys: Vec<K>, start_idx: usize) -> (r: Result<Self, KeyArrayError>)
        ensures
            match r {
                Ok(ka) => {
                    &&& start_idx < keys@.len()
                    &&& ka.wf()
                    &&& ka@.items == keys@
                    &&& ka@.cursor == start_idx
                    &&& ka@.current() == keys@[start_idx as int]
                },
                Err(KeyArrayError::EmptyInput) => keys@.len() == 0,
                Err(KeyArrayError::IndexOutOfRange) => 0 < keys@.len() <= start_idx,
                Err(KeyArrayError::CannotRemoveLastItem) => false,
            },
    {
        if keys.len() == 0 {
            return Err(KeyArrayError::EmptyInput);
        }
        if start_idx >= keys.len() {
            return Err(KeyArrayError::IndexOutOfRange);
        }
        Ok(KeyArray { keys, idx: start_idx })
    }

    /// Makes the key at index `i` the current one.
    ///
    /// Fails with `IndexOutOfRange` exactly when `i` is not the index of a
    /// key; the key array is then left as it was.
    pub fn change(&mut self, i: usize) -> (r: Result<(), KeyArrayError>)
        requires
            old(self).wf(),
        ensures
            final(self).wf(),
            final(self)@.items == old(self)@.items,
            match r {
                Ok(()) => i < old(self)@.items.len() && final(self)@.cursor == i,
                Err(e) => {
                    &&& i >= old(self)@.items.len()
                    &&& e == KeyArrayError::IndexOutOfRange
                    &&& *final(self) == *old(self)
                },
            },
    {
        if i >= self.keys.len() {
            return Err(KeyArrayError::IndexOutOfRange);
        }
        self.idx = i;
        Ok(())
    }

    /// The current key.
    pub fn current(&self) -> (k: &K)
        requires
            self.wf(),
        ensures
            *k == self@.current(),
    {
        &self.keys[self.idx]
    }

    /// The index of the current key.
    pub fn current_index(&self) -> (i: usize)
        ensures
            i == self@.cursor,
    {
        self.idx
    }

    /// All keys, in their current order.
    pub fn keys(&self) -> (s: &[K])
        ensures
            s@ == self@.items,
    {
        self.keys.as_slice()
    }

    /// The number of keys.
    pub fn len(&self) -> (n: usize)
        ensures
            n == self@.items.len(),
    {
        self.keys.len()
    }

    /// Appends `key` after the last key. The cursor does not move, so the
    /// current key stays the same.
    pub fn push(&mut self, key: K)
        requires
            old(self).wf(),
        ensures
            final(self).wf(),
            final(self)@.items == old(self)@.items.push(key),
            final(self)@.cursor == old(self)@.cursor,
            final(self)@.items.len() == old(self)@.items.len() + 1,
            final(self)@.items[final(self)@.items.len() - 1] == key,
            final(self)@.current() == old(self)@.current(),
    {
        self.keys.push(key);
    }

    /// Inserts `key` so that it becomes the key at index `i`; `i` equal to
    /// the length appends. A cursor at or behind `i` moves one step on, so
    /// the current key stays the same.
    ///
    /// Fails with `IndexOutOfRange` exactly when `i` exceeds the length; the
    /// key array is then left as it was.
    pub fn insert(&mut self, i: usize, key: K) -> (r: Result<(), KeyArrayError>)
        requires
            old(self).wf(),
        ensures
            final(self).wf(),
            match r {
                Ok(()) => {
                    &&& i <= old(self)@.items.len()
                    &&& final(self)@.items == old(self)@.items.insert(i as int, key)
                    &&& final(self)@.cursor == if i <= old(self)@.cursor {
                        old(self)@.cursor + 1
                    } else {
                        old(self)@.cursor
                    }
                    &&& final(self)@.items.len() == old(self)@.items.len() + 1
                    &&& final(self)@.items[i as int] == key
                    &&& final(self)@.current() == old(self)@.current()
                },
                Err(e) => {
                    &&& i > old(self)@.items.len()
                    &&& e == KeyArrayError::IndexOutOfRange
                    &&& *final(self) == *old(self)
                },
            },
    {
        if i > self.keys.len() {
            return Err(KeyArrayError::IndexOutOfRange);
        }
        self.keys.insert(i, key);
        if i <= self.idx {
            assert(self.idx < self.keys.len());
            self.idx += 1;
        }
        Ok(())
    }

    /// Removes the key at index `i` and returns it. The cursor keeps its
    /// number unless that number now lies behind the last key, in which case
    /// it moves to the last key. Removing a key in front of the cursor
    /// therefore makes the next key the current one.
    ///
    /// Fails with `IndexOutOfRange` exactly when `i` is not the index of a
    /// key, and with `CannotRemoveLastItem` exactly when `i` is 0 and the
    /// key there is the only one. On failure the key array is left as it
    /// was.
    pub fn remove(&mut self, i: usize) -> (r: Result<K, KeyArrayError>)
        requires
            old(self).wf(),
        ensures
            final(self).wf(),
            match r {
                Ok(removed) => {
                    &&& i < old(self)@.items.len()
                    &&& old(self)@.items.len() >= 2
                    &&& removed == old(self)@.items[i as int]
                    &&& final(self)@.items == old(self)@.items.remove(i as int)
                    &&& final(self)@.items.len() == old(self)@.items.len() - 1
                    &&& final(self)@.cursor == if old(self)@.cursor >= final(self)@.items.len() {
                        (final(self)@.items.len() - 1) as nat
                    } else {
                        old(self)@.cursor
                    }
                    &&& i > old(self)@.cursor ==> final(self)@.current() == old(self)@.current()
                    &&& i < old(self)@.cursor < final(self)@.items.len() ==> final(self)@.current()
                        == old(self)@.items[old(self)@.cursor as int + 1]
                },
                Err(KeyArrayError::IndexOutOfRange) => {
                    &&& i >= old(self)@.items.len()
                    &&& *final(self) == *old(self)
                },
                Err(KeyArrayError::CannotRemoveLastItem) => {
                    &&& i == 0
                    &&& old(self)@.items.len() == 1
                    &&& *final(self) == *old(self)
                },
                Err(KeyArrayError::EmptyInput) => false,
            },
    {
        if i >= self.keys.len() {
            return Err(KeyArrayError::IndexOutOfRange);
        }
        if self.keys.len() == 1 {
            return Err(KeyArrayError::CannotRemoveLastItem);
        }
        let removed = self.keys.remove(i);
        if self.idx >= self.keys.len() {
            self.idx = self.keys.len() - 1;
        }
        Ok(removed)
    }
}

/// Reading does not change a key array: whatever two calls of `current`,
/// of `current_index` or of `keys` return on the same key array is the same.
pub proof fn lemma_reads_repeat<K>(
    ka: &KeyArray<K>,
    i1: usize,
    i2: usize,
    k1: &K,
    k2: &K,
    s1: &[K],
    s2: &[K],
)
    requires
        ka.wf(),
        call_ensures(KeyArray::<K>::current_index, (ka,), i1),
        call_ensures(KeyArray::<K>::current_index, (ka,), i2),
        call_ensures(KeyArray::<K>::current, (ka,), k1),
        call_ensures(KeyArray::<K>::current, (ka,), k2),
        call_ensures(KeyArray::<K>::keys, (ka,), s1),
        call_ensures(KeyArray::<K>::keys, (ka,), s2),
    ensures
        i1 == i2,
        k1 == k2,
        s1@ == s2@,
{
}

} // verus!
