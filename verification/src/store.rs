//! Handle-keyed storage of material instances.
//!
//! Material instances live in an asset store and are referred to from mesh
//! entities by handle. A pass mutates the instance behind a handle in place,
//! so an attached handle stays valid as long as its policy keeps matching;
//! handles are never reused once allocated.

use vstd::prelude::*;

verus! {

/// The value stored under `key` in a sequence of key/value pairs; the first
/// pair with the key wins.
pub open spec fn seq_get<V>(s: Seq<(u64, V)>, key: u64) -> Option<V>
    decreases s.len(),
{
    if s.len() == 0 {
        None
    } else if s[0].0 == key {
        Some(s[0].1)
    } else {
        seq_get(s.subrange(1, s.len() as int), key)
    }
}

/// No two pairs of `s` share a key.
pub open spec fn distinct_keys<V>(s: Seq<(u64, V)>) -> bool {
    forall|i: int, j: int| 0 <= i < j < s.len() ==> s[i].0 != s[j].0
}

/// A key held by no pair of `s` is absent from the lookup.
pub proof fn lemma_seq_get_absent<V>(s: Seq<(u64, V)>, key: u64)
    requires
        forall|i: int| 0 <= i < s.len() ==> (#[trigger] s[i]).0 != key,
    ensures
        seq_get(s, key) is None,
    decreases s.len(),
{
    if s.len() > 0 {
        let tail = s.subrange(1, s.len() as int);
        assert(forall|i: int| 0 <= i < tail.len() ==> (#[trigger] tail[i]) == s[i + 1]);
        lemma_seq_get_absent(tail, key);
    }
}

/// An absent key is held by no pair of `s`.
pub proof fn lemma_seq_get_absent_converse<V>(s: Seq<(u64, V)>, key: u64)
    requires
        seq_get(s, key) is None,
    ensures
        forall|i: int| 0 <= i < s.len() ==> (#[trigger] s[i]).0 != key,
    decreases s.len(),
{
    if s.len() > 0 {
        let tail = s.subrange(1, s.len() as int);
        lemma_seq_get_absent_converse(tail, key);
        assert forall|i: int| 0 <= i < s.len() implies (#[trigger] s[i]).0 != key by {
            if i > 0 {
                assert(tail[i - 1] == s[i]);
            }
        }
    }
}

/// The first pair holding `key` decides the lookup.
pub proof fn lemma_seq_get_first_match<V>(s: Seq<(u64, V)>, key: u64, i: int)
    requires
        0 <= i < s.len(),
        s[i].0 == key,
        forall|j: int| 0 <= j < i ==> (#[trigger] s[j]).0 != key,
    ensures
        seq_get(s, key) == Some(s[i].1),
    decreases s.len(),
{
    if i > 0 {
        let tail = s.subrange(1, s.len() as int);
        assert(forall|j: int| 0 <= j < tail.len() ==> (#[trigger] tail[j]) == s[j + 1]);
        lemma_seq_get_first_match(tail, key, i - 1);
    }
}

/// Appending a pair changes the lookup only at its key, and only when that
/// key was absent.
pub proof fn lemma_seq_get_push<V>(s: Seq<(u64, V)>, key: u64, k: u64, v: V)
    ensures
        seq_get(s.push((k, v)), key) == (if seq_get(s, key) is Some {
            seq_get(s, key)
        } else if key == k {
            Some(v)
        } else {
            None::<V>
        }),
    decreases s.len(),
{
    if s.len() == 0 {
        assert(s.push((k, v))[0] == (k, v));
        if key != k {
            let tail = s.push((k, v)).subrange(1, 1);
            assert(tail.len() == 0);
            assert(seq_get(tail, key) is None);
        }
    } else {
        let p = s.push((k, v));
        assert(p[0] == s[0]);
        if s[0].0 != key {
            let tail = s.subrange(1, s.len() as int);
            assert(p.subrange(1, p.len() as int) =~= tail.push((k, v)));
            lemma_seq_get_push(tail, key, k, v);
        }
    }
}

/// Removing the pair at `i` empties the lookup at its key (when keys are
/// distinct) and changes no other key.
pub proof fn lemma_seq_get_remove<V>(s: Seq<(u64, V)>, key: u64, i: int)
    requires
        0 <= i < s.len(),
        distinct_keys(s),
    ensures
        seq_get(s.remove(i), key) == (if key == s[i].0 {
            None::<V>
        } else {
            seq_get(s, key)
        }),
    decreases s.len(),
{
    let r = s.remove(i);
    if i == 0 {
        assert(r =~= s.subrange(1, s.len() as int));
        if key == s[0].0 {
            assert(forall|j: int| 0 <= j < r.len() ==> (#[trigger] r[j]) == s[j + 1]);
            lemma_seq_get_absent(r, key);
        }
    } else {
        assert(r[0] == s[0]);
        if s[0].0 != key {
            let tail = s.subrange(1, s.len() as int);
            assert(forall|j: int| 0 <= j < tail.len() ==> (#[trigger] tail[j]) == s[j + 1]);
            assert(r.subrange(1, r.len() as int) =~= tail.remove(i - 1));
            lemma_seq_get_remove(tail, key, i - 1);
        }
    }
}

/// Distinctness survives removing a pair.
pub proof fn lemma_distinct_remove<V>(s: Seq<(u64, V)>, i: int)
    requires
        0 <= i < s.len(),
        distinct_keys(s),
    ensures
        distinct_keys(s.remove(i)),
{
    let r = s.remove(i);
    assert forall|a: int, b: int| 0 <= a < b < r.len() implies r[a].0 != r[b].0 by {
        let a0 = if a < i { a } else { a + 1 };
        let b0 = if b < i { b } else { b + 1 };
        assert(r[a] == s[a0]);
        assert(r[b] == s[b0]);
    }
}

/// Store of material instances of one policy type, keyed by handle. Handles
/// count up from zero and are never reused, so a removed instance's handle
/// stays dangling rather than aliasing a later one.
pub struct Assets<M> {
    entries: Vec<(u64, M)>,
    next_handle: u64,
}

impl<M> Assets<M> {
    /// The instance stored under `handle`, if any.
    pub closed spec fn spec_get(&self, handle: u64) -> Option<M> {
        seq_get(self.entries@, handle)
    }

    /// The handle the next added instance will get.
    pub closed spec fn spec_next(&self) -> u64 {
        self.next_handle
    }

    /// Every stored handle was allocated (is below the next handle) and no
    /// two entries share a handle.
    pub closed spec fn wf(&self) -> bool {
        &&& distinct_keys(self.entries@)
        &&& forall|i: int|
            0 <= i < self.entries@.len() ==> (#[trigger] self.entries@[i]).0 < self.next_handle
    }

    /// How many instances are stored.
    pub closed spec fn spec_len(&self) -> nat {
        self.entries@.len()
    }

    /// An empty store.
    pub fn new() -> (r: Self)
        ensures
            r.wf(),
            r.spec_len() == 0,
            r.spec_next() == 0,
            forall|k: u64| r.spec_get(k) is None,
    {
        let r = Assets { entries: Vec::new(), next_handle: 0u64 };
        proof {
            assert forall|k: u64| r.spec_get(k) is None by {
                lemma_seq_get_absent(r.entries@, k);
            }
        }
        r
    }

    /// How many instances are stored.
    pub fn len(&self) -> (r: usize)
        ensures
            r == self.spec_len(),
    {
        self.entries.len()
    }

    /// Index of the entry holding `handle`, if one does.
    fn index_of(&self, handle: u64) -> (r: Option<usize>)
        ensures
            match r {
                Some(i) => {
                    &&& i < self.entries@.len()
                    &&& self.entries@[i as int].0 == handle
                    &&& self.spec_get(handle) == Some(self.entries@[i as int].1)
                },
                None => self.spec_get(handle) is None,
            },
    {
        let n = self.entries.len();
        let mut i: usize = 0;
        while i < n
            invariant
                n == self.entries@.len(),
                i <= n,
                forall|j: int| 0 <= j < i ==> (#[trigger] self.entries@[j]).0 != handle,
            decreases n - i,
        {
            if self.entries[i].0 == handle {
                proof {
                    lemma_seq_get_first_match(self.entries@, handle, i as int);
                }
                return Some(i);
            }
            i = i + 1;
        }
        proof {
            lemma_seq_get_absent(self.entries@, handle);
        }
        None
    }

    /// Whether an instance is stored under `handle`.
    pub fn contains(&self, handle: u64) -> (r: bool)
        ensures
            r == (self.spec_get(handle) is Some),
    {
        self.index_of(handle).is_some()
    }

    /// Borrows the instance stored under `handle`.
    pub fn get(&self, handle: u64) -> (r: Option<&M>)
        ensures
            match r {
                Some(m) => self.spec_get(handle) == Some(*m),
                None => self.spec_get(handle) is None,
            },
    {
        match self.index_of(handle) {
            Some(i) => Some(&self.entries[i].1),
            None => None,
        }
    }

    /// Removes and returns the instance stored under `handle`; the store is
    /// unchanged at every other handle.
    pub fn take(&mut self, handle: u64) -> (r: Option<M>)
        requires
            old(self).wf(),
        ensures
            final(self).wf(),
            final(self).spec_next() == old(self).spec_next(),
            r == old(self).spec_get(handle),
            final(self).spec_get(handle) is None,
            forall|k: u64| k != handle ==> final(self).spec_get(k) == old(self).spec_get(k),
    {
        match self.index_of(handle) {
            Some(i) => {
                proof {
                    lemma_distinct_remove(self.entries@, i as int);
                    assert forall|k: u64| true implies seq_get(
                        self.entries@.remove(i as int),
                        k,
                    ) == (if k == handle {
                        None::<M>
                    } else {
                        seq_get(self.entries@, k)
                    }) by {
                        lemma_seq_get_remove(self.entries@, k, i as int);
                    }
                }
                let (_, m) = self.entries.remove(i);
                Some(m)
            },
            None => None,
        }
    }

    /// Stores `value` under an allocated but currently empty `handle`; used to
    /// put an updated instance back where it was taken from, so the handle a
    /// mesh entity holds survives the update.
    pub fn insert_keyed(&mut self, handle: u64, value: M)
        requires
            old(self).wf(),
            old(self).spec_get(handle) is None,
            handle < old(self).spec_next(),
        ensures
            final(self).wf(),
            final(self).spec_next() == old(self).spec_next(),
            final(self).spec_get(handle) == Some(value),
            forall|k: u64| k != handle ==> final(self).spec_get(k) == old(self).spec_get(k),
    {
        proof {
            lemma_seq_get_absent_converse(self.entries@, handle);
            assert forall|k: u64| true implies seq_get(
                self.entries@.push((handle, value)),
                k,
            ) == (if k == handle {
                Some(value)
            } else {
                seq_get(self.entries@, k)
            }) by {
                lemma_seq_get_push(self.entries@, k, handle, value);
            }
            let p = self.entries@.push((handle, value));
            assert forall|i: int, j: int| 0 <= i < j < p.len() implies p[i].0 != p[j].0 by {
                if j == p.len() - 1 {
                    assert(p[i] == self.entries@[i]);
                } else {
                    assert(p[i] == self.entries@[i]);
                    assert(p[j] == self.entries@[j]);
                }
            }
        }
        self.entries.push((handle, value));
    }

    /// A handle the store has not yet allocated holds nothing.
    pub proof fn lemma_unallocated_absent(&self, k: u64)
        requires
            self.wf(),
            k >= self.spec_next(),
        ensures
            self.spec_get(k) is None,
    {
        assert(forall|i: int|
            0 <= i < self.entries@.len() ==> (#[trigger] self.entries@[i]).0 != k);
        lemma_seq_get_absent(self.entries@, k);
    }

    /// Stores `value` under a fresh handle and returns that handle.
    pub fn add(&mut self, value: M) -> (handle: u64)
        requires
            old(self).wf(),
            old(self).spec_next() < u64::MAX,
        ensures
            final(self).wf(),
            handle == old(self).spec_next(),
            final(self).spec_next() == old(self).spec_next() + 1,
            old(self).spec_get(handle) is None,
            final(self).spec_get(handle) == Some(value),
            forall|k: u64| k != handle ==> final(self).spec_get(k) == old(self).spec_get(k),
    {
        let handle = self.next_handle;
        proof {
            assert forall|i: int| 0 <= i < self.entries@.len() implies (#[trigger] self.entries@[i]).0
                != handle by {}
            lemma_seq_get_absent(self.entries@, handle);
            assert forall|k: u64| true implies seq_get(
                self.entries@.push((handle, value)),
                k,
            ) == (if k == handle {
                Some(value)
            } else {
                seq_get(self.entries@, k)
            }) by {
                lemma_seq_get_push(self.entries@, k, handle, value);
            }
            let p = self.entries@.push((handle, value));
            assert forall|i: int, j: int| 0 <= i < j < p.len() implies p[i].0 != p[j].0 by {
                if j == p.len() - 1 {
                    assert(p[i] == self.entries@[i]);
                } else {
                    assert(p[i] == self.entries@[i]);
                    assert(p[j] == self.entries@[j]);
                }
            }
        }
        self.entries.push((handle, value));
        self.next_handle = self.next_handle + 1;
        handle
    }
}

} // verus!
