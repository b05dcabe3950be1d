//! A keyed, insertion-ordered record store: the storage behind every
//! in-memory repository. Saving a record whose key is already stored
//! replaces it in place; saving a new key appends the record.

use vstd::prelude::*;

verus! {

/// A record kept by a [`Store`]: it has a textual key and can be copied.
pub trait Record: View + Sized {
    /// The key of a record value.
    spec fn key_of(v: Self::V) -> Seq<char>;

    /// The key of this record.
    fn key(&self) -> (r: &String)
        ensures
            r@ == Self::key_of(self@),
    ;

    /// A copy of this record.
    fn duplicate(&self) -> (r: Self)
        ensures
            r@ == self@,
    ;
}

/// Some record of `s` has key `k`.
pub open spec fn has_key<T: Record>(s: Seq<T::V>, k: Seq<char>) -> bool {
    exists|i: int| 0 <= i < s.len() && #[trigger] T::key_of(s[i]) == k
}

/// The position of a record of `s` with key `k` (meaningful when there is one).
pub open spec fn key_index<T: Record>(s: Seq<T::V>, k: Seq<char>) -> int {
    choose|i: int| 0 <= i < s.len() && #[trigger] T::key_of(s[i]) == k
}

/// The record of `s` with key `k`, if any.
pub open spec fn lookup<T: Record>(s: Seq<T::V>, k: Seq<char>) -> Option<T::V> {
    if has_key::<T>(s, k) {
        Some(s[key_index::<T>(s, k)])
    } else {
        None
    }
}

/// `s` after saving `v`: the record with `v`'s key is replaced in place, or
/// `v` is appended when its key is new.
pub open spec fn upserted<T: Record>(s: Seq<T::V>, v: T::V) -> Seq<T::V> {
    if has_key::<T>(s, T::key_of(v)) {
        s.update(key_index::<T>(s, T::key_of(v)), v)
    } else {
        s.push(v)
    }
}

/// No two records of `s` share a key.
pub open spec fn unique_keys<T: Record>(s: Seq<T::V>) -> bool {
    forall|i: int, j: int|
        0 <= i < s.len() && 0 <= j < s.len() && i != j ==> #[trigger] T::key_of(s[i])
            != #[trigger] T::key_of(s[j])
}

/// In a sequence with unique keys, the record at `i` is the one found by its key.
pub proof fn lemma_key_index_unique<T: Record>(s: Seq<T::V>, i: int)
    requires
        unique_keys::<T>(s),
        0 <= i < s.len(),
    ensures
        has_key::<T>(s, T::key_of(s[i])),
        key_index::<T>(s, T::key_of(s[i])) == i,
        lookup::<T>(s, T::key_of(s[i])) == Some(s[i]),
{
    assert(T::key_of(s[i]) == T::key_of(s[i]));
    let j = key_index::<T>(s, T::key_of(s[i]));
    assert(0 <= j < s.len() && T::key_of(s[j]) == T::key_of(s[i]));
}

/// Saving keeps keys unique.
pub proof fn lemma_upsert_keeps_keys_unique<T: Record>(s: Seq<T::V>, v: T::V)
    requires
        unique_keys::<T>(s),
    ensures
        unique_keys::<T>(upserted::<T>(s, v)),
{
    let r = upserted::<T>(s, v);
    if has_key::<T>(s, T::key_of(v)) {
        let k = key_index::<T>(s, T::key_of(v));
        assert forall|i: int, j: int|
            0 <= i < r.len() && 0 <= j < r.len() && i != j implies #[trigger] T::key_of(r[i])
            != #[trigger] T::key_of(r[j]) by {
            if i == k {
                assert(T::key_of(s[j]) != T::key_of(s[k]));
            } else if j == k {
                assert(T::key_of(s[i]) != T::key_of(s[k]));
            } else {
                assert(T::key_of(s[i]) != T::key_of(s[j]));
            }
        }
    } else {
        assert forall|i: int, j: int|
            0 <= i < r.len() && 0 <= j < r.len() && i != j implies #[trigger] T::key_of(r[i])
            != #[trigger] T::key_of(r[j]) by {
            if i == s.len() {
                assert(T::key_of(s[j]) == T::key_of(r[j]));
            } else if j == s.len() {
                assert(T::key_of(s[i]) == T::key_of(r[i]));
            } else {
                assert(T::key_of(s[i]) != T::key_of(s[j]));
            }
        }
    }
}

/// After saving `v`, looking up `v`'s key finds `v`.
pub proof fn lemma_upsert_then_lookup<T: Record>(s: Seq<T::V>, v: T::V)
    requires
        unique_keys::<T>(s),
    ensures
        lookup::<T>(upserted::<T>(s, v), T::key_of(v)) == Some(v),
{
    let r = upserted::<T>(s, v);
    lemma_upsert_keeps_keys_unique::<T>(s, v);
    if has_key::<T>(s, T::key_of(v)) {
        let k = key_index::<T>(s, T::key_of(v));
        assert(r[k] == v);
        lemma_key_index_unique::<T>(r, k);
    } else {
        assert(r[s.len() as int] == v);
        lemma_key_index_unique::<T>(r, s.len() as int);
    }
}

/// Saving `v` leaves the record found under every other key as it was.
pub proof fn lemma_upsert_other_key<T: Record>(s: Seq<T::V>, v: T::V, k: Seq<char>)
    requires
        unique_keys::<T>(s),
        k != T::key_of(v),
    ensures
        lookup::<T>(upserted::<T>(s, v), k) == lookup::<T>(s, k),
{
    let r = upserted::<T>(s, v);
    lemma_upsert_keeps_keys_unique::<T>(s, v);
    if has_key::<T>(s, k) {
        let i = key_index::<T>(s, k);
        lemma_key_index_unique::<T>(s, i);
        assert(r[i] == s[i]);
        lemma_key_index_unique::<T>(r, i);
    } else {
        if has_key::<T>(r, k) {
            let i = key_index::<T>(r, k);
            assert(T::key_of(r[i]) == k);
            if has_key::<T>(s, T::key_of(v)) {
                assert(T::key_of(s[i]) == k);
            } else {
                assert(i < s.len());
                assert(T::key_of(s[i]) == k);
            }
        }
    }
}

/// Saving a record whose key is stored keeps the number of records; saving a
/// new key adds one.
pub proof fn lemma_upsert_len<T: Record>(s: Seq<T::V>, v: T::V)
    ensures
        upserted::<T>(s, v).len() == if has_key::<T>(s, T::key_of(v)) {
            s.len()
        } else {
            s.len() + 1
        },
{
    if has_key::<T>(s, T::key_of(v)) {
        let k = key_index::<T>(s, T::key_of(v));
        assert(0 <= k < s.len());
    }
}

/// Records kept in insertion order, at most one per key.
pub struct Store<T: Record> {
    items: Vec<T>,
}

impl<T: Record> View for Store<T> {
    type V = Seq<T::V>;

    closed spec fn view(&self) -> Seq<T::V> {
        self.items@.map_values(|t: T| t@)
    }
}

impl<T: Record> Store<T> {
    #[verifier::type_invariant]
    closed spec fn keys_are_unique(&self) -> bool {
        unique_keys::<T>(self@)
    }

    /// An empty store.
    pub fn new() -> (r: Self)
        ensures
            r@ == Seq::<T::V>::empty(),
            unique_keys::<T>(r@),
    {
        let r = Store { items: Vec::new() };
        assert(r@ =~= Seq::<T::V>::empty());
        r
    }

    /// The position of the record with key `k`, if there is one.
    fn position(&self, k: &String) -> (r: Option<usize>)
        ensures
            r is None ==> !has_key::<T>(self@, k@),
            r matches Some(i) ==> i < self@.len() && i == key_index::<T>(self@, k@) && has_key::<T>(
                self@,
                k@,
            ),
    {
        proof {
            use_type_invariant(self);
        }
        let mut i: usize = 0;
        while i < self.items.len()
            invariant
                i <= self.items.len(),
                self@.len() == self.items@.len(),
                unique_keys::<T>(self@),
                forall|j: int| 0 <= j < i ==> T::key_of(#[trigger] self@[j]) != k@,
            decreases self.items.len() - i,
        {
            if *self.items[i].key() == *k {
                proof {
                    assert(self@[i as int] == self.items@[i as int]@);
                    lemma_key_index_unique::<T>(self@, i as int);
                }
                return Some(i);
            }
            assert(self@[i as int] == self.items@[i as int]@);
            i = i + 1;
        }
        None
    }

    /// Saves `x`: replaces the record with the same key, or appends `x`.
    pub fn upsert(&mut self, x: T)
        ensures
            final(self)@ == upserted::<T>(old(self)@, x@),
            unique_keys::<T>(old(self)@),
            unique_keys::<T>(final(self)@),
    {
        proof {
            use_type_invariant(&*self);
            lemma_upsert_keeps_keys_unique::<T>(self@, x@);
        }
        let ghost before = self@;
        let found = self.position(x.key());
        let mut items: Vec<T> = Vec::new();
        std::mem::swap(&mut items, &mut self.items);
        assert(items@.map_values(|t: T| t@) == before);
        match found {
            Some(i) => {
                items.set(i, x);
                assert(items@.map_values(|t: T| t@) =~= before.update(i as int, x@));
            },
            None => {
                items.push(x);
                assert(items@.map_values(|t: T| t@) =~= before.push(x@));
            },
        }
        self.items = items;
    }

    /// A copy of the record with key `k`, if there is one.
    pub fn find(&self, k: &String) -> (r: Option<T>)
        ensures
            r matches Some(t) ==> lookup::<T>(self@, k@) == Some(t@),
            r is None ==> lookup::<T>(self@, k@) is None,
            unique_keys::<T>(self@),
    {
        proof {
            use_type_invariant(self);
        }
        match self.position(k) {
            Some(i) => {
                let t = self.items[i].duplicate();
                assert(self@[i as int] == self.items@[i as int]@);
                Some(t)
            },
            None => None,
        }
    }

    /// The stored records, in order.
    pub fn items(&self) -> (r: &Vec<T>)
        ensures
            r@.map_values(|t: T| t@) == self@,
            unique_keys::<T>(self@),
    {
        proof {
            use_type_invariant(self);
        }
        &self.items
    }

    /// Copies of all stored records, in order.
    pub fn all(&self) -> (r: Vec<T>)
        ensures
            r@.map_values(|t: T| t@) == self@,
            unique_keys::<T>(self@),
    {
        proof {
            use_type_invariant(self);
        }
        let mut out: Vec<T> = Vec::new();
        let mut i: usize = 0;
        while i < self.items.len()
            invariant
                i <= self.items.len(),
                out@.map_values(|t: T| t@) == self@.subrange(0, i as int),
                self@.len() == self.items@.len(),
            decreases self.items.len() - i,
        {
            let t = self.items[i].duplicate();
            let ghost prev = out@;
            out.push(t);
            proof {
                assert(self@[i as int] == self.items@[i as int]@);
                assert(out@.map_values(|t: T| t@) =~= prev.map_values(|t: T| t@).push(t@));
                assert(self@.subrange(0, i + 1) =~= self@.subrange(0, i as int).push(self@[i as int]));
            }
            i = i + 1;
        }
        assert(self@.subrange(0, self@.len() as int) =~= self@);
        out
    }
}

} // verus!
