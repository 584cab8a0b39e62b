//! The key-value backend contract and its in-memory implementations.
//!
//! Any store offering `put`, `get` and `scan_prefix` suffices as a registry
//! backend; the model is the stored entry list, in first-write order.

use crate::GfsError;
use vstd::prelude::*;
use vstd::string::*;

verus! {

/// One stored entry: key and value.
pub type StoreEntry = (Seq<char>, Seq<char>);

/// The value under `key`, scanning entries front to back.
pub open spec fn store_get(es: Seq<StoreEntry>, key: Seq<char>) -> Option<Seq<char>>
    decreases es.len(),
{
    if es.len() == 0 {
        None
    } else if es[0].0 == key {
        Some(es[0].1)
    } else {
        store_get(es.drop_first(), key)
    }
}

/// The entries after an overwrite-or-append `put`.
pub open spec fn store_put(es: Seq<StoreEntry>, key: Seq<char>, value: Seq<char>) -> Seq<StoreEntry>
    decreases es.len(),
{
    if es.len() == 0 {
        seq![(key, value)]
    } else if es[0].0 == key {
        seq![(key, value)] + es.drop_first()
    } else {
        seq![es[0]] + store_put(es.drop_first(), key, value)
    }
}

pub open spec fn is_prefix_of(p: Seq<char>, s: Seq<char>) -> bool {
    p.len() <= s.len() && s.subrange(0, p.len() as int) == p
}

/// The values of entries whose key starts with `prefix`, in store order.
pub open spec fn store_scan(es: Seq<StoreEntry>, prefix: Seq<char>) -> Seq<Seq<char>>
    decreases es.len(),
{
    if es.len() == 0 {
        Seq::<Seq<char>>::empty()
    } else if is_prefix_of(prefix, es[0].0) {
        seq![es[0].1] + store_scan(es.drop_first(), prefix)
    } else {
        store_scan(es.drop_first(), prefix)
    }
}

/// After a `put`, the key maps to the new value.
pub proof fn lemma_store_put_get(es: Seq<StoreEntry>, key: Seq<char>, value: Seq<char>)
    ensures
        store_get(store_put(es, key, value), key) == Some(value),
    decreases es.len(),
{
    if es.len() != 0 && es[0].0 != key {
        lemma_store_put_get(es.drop_first(), key, value);
        assert((seq![es[0]] + store_put(es.drop_first(), key, value)).drop_first()
            =~= store_put(es.drop_first(), key, value));
    } else if es.len() != 0 {
        assert((seq![(key, value)] + es.drop_first())[0] == (key, value));
    }
}

/// A registry lookup handle (reserved surface of the backend contract).
pub struct ResourceLookup {}

/// A persistent key-value backend: `put`, exact `get`, and prefix scan.
pub trait StorageProvider: Sized {
    /// The stored entries, in first-write order.
    spec fn entries(&self) -> Seq<StoreEntry>;

    /// Stores `value` under `key`, overwriting any previous value.
    fn put(&mut self, key: &str, value: &str) -> (r: Result<(), GfsError>)
        ensures
            match r {
                Ok(()) => final(self).entries() == store_put(old(self).entries(), key@, value@),
                Err(e) => e == GfsError::BackendError && final(self).entries() == old(self).entries(),
            },
    ;

    /// Fetches the value under `key`; `NotFound` exactly when the key is
    /// absent, `BackendError` only on an I/O failure.
    fn get(&self, key: &str) -> (r: Result<String, GfsError>)
        ensures
            match r {
                Ok(v) => store_get(self.entries(), key@) == Some(v@),
                Err(e) => e == GfsError::BackendError || (e == GfsError::NotFound && store_get(
                    self.entries(),
                    key@,
                ) is None),
            },
    ;

    /// All values whose key starts with `prefix`, in store order.
    fn scan_prefix(&self, prefix: &str) -> (r: Result<Vec<String>, GfsError>)
        ensures
            match r {
                Ok(vs) => vs.deep_view() == store_scan(self.entries(), prefix@),
                Err(e) => e == GfsError::BackendError,
            },
    ;
}

/// Character-by-character string equality.
pub fn str_eq(a: &str, b: &str) -> (r: bool)
    ensures
        r == (a@ == b@),
{
    let la = a.unicode_len();
    let lb = b.unicode_len();
    if la != lb {
        return false;
    }
    let mut i: usize = 0;
    while i < la
        invariant
            i <= la,
            la == a@.len(),
            la == b@.len(),
            forall|j: int| 0 <= j < i ==> a@[j] == b@[j],
        decreases la - i,
    {
        if a.get_char(i) != b.get_char(i) {
            return false;
        }
        i = i + 1;
    }
    proof {
        assert(a@ =~= b@);
    }
    true
}

/// Whether `p` is a prefix of `s`, character by character.
pub fn str_is_prefix(p: &str, s: &str) -> (r: bool)
    ensures
        r == is_prefix_of(p@, s@),
{
    let lp = p.unicode_len();
    let ls = s.unicode_len();
    if lp > ls {
        return false;
    }
    let mut i: usize = 0;
    while i < lp
        invariant
            i <= lp,
            lp == p@.len(),
            ls == s@.len(),
            lp <= ls,
            forall|j: int| 0 <= j < i ==> p@[j] == s@[j],
        decreases lp - i,
    {
        if p.get_char(i) != s.get_char(i) {
            proof {
                assert(s@.subrange(0, lp as int)[i as int] == s@[i as int]);
            }
            return false;
        }
        i = i + 1;
    }
    proof {
        assert(s@.subrange(0, lp as int) =~= p@);
    }
    true
}

/// An in-memory backend: entries in a vector, in first-write order.
pub struct LocalStorageProvider {
    items: Vec<(String, String)>,
}

impl LocalStorageProvider {
    /// An empty store.
    pub fn new() -> (r: LocalStorageProvider)
        ensures
            r.entries() == Seq::<StoreEntry>::empty(),
    {
        let r = LocalStorageProvider { items: Vec::new() };
        proof {
            assert(r.entries() =~= Seq::<StoreEntry>::empty());
        }
        r
    }
}

impl StorageProvider for LocalStorageProvider {
    closed spec fn entries(&self) -> Seq<StoreEntry> {
        self.items.deep_view()
    }

    fn put(&mut self, key: &str, value: &str) -> (r: Result<(), GfsError>) {
        let ghost full = self.items.deep_view();
        let mut i: usize = 0;
        let n = self.items.len();
        proof {
            assert(full.subrange(0, n as int) =~= full);
            assert(full.subrange(0, 0) =~= Seq::<StoreEntry>::empty());
            assert(Seq::<StoreEntry>::empty() + store_put(full, key@, value@) =~= store_put(
                full,
                key@,
                value@,
            ));
        }
        while i < n
            invariant
                i <= n,
                n == self.items.len(),
                self.items.deep_view() == full,
                full == old(self).entries(),
                forall|j: int| 0 <= j < i ==> (#[trigger] full[j]).0 != key@,
                store_put(full, key@, value@) == full.subrange(0, i as int) + store_put(
                    full.subrange(i as int, n as int),
                    key@,
                    value@,
                ),
            decreases n - i,
        {
            if str_eq(self.items[i].0.as_str(), key) {
                let ghost rest = full.subrange(i as int, n as int);
                self.items.set(i, (String::from_str(key), String::from_str(value)));
                proof {
                    assert(rest[0].0 == key@);
                    assert(store_put(rest, key@, value@) == seq![(key@, value@)]
                        + rest.drop_first());
                    assert(rest.drop_first() =~= full.subrange(i + 1, n as int));
                    assert(self.items.deep_view() =~= full.subrange(0, i as int) + (seq![
                        (key@, value@),
                    ] + full.subrange(i + 1, n as int)));
                    assert(self.items.deep_view() == store_put(full, key@, value@));
                }
                return Ok(());
            }
            proof {
                let rest = full.subrange(i as int, n as int);
                assert(rest[0] == full[i as int]);
                assert(rest[0].0 != key@);
                assert(store_put(rest, key@, value@) == seq![rest[0]] + store_put(
                    rest.drop_first(),
                    key@,
                    value@,
                ));
                assert(rest.drop_first() =~= full.subrange(i + 1, n as int));
                assert(full.subrange(0, i as int) + (seq![rest[0]] + store_put(
                    full.subrange(i + 1, n as int),
                    key@,
                    value@,
                )) =~= full.subrange(0, i + 1) + store_put(
                    full.subrange(i + 1, n as int),
                    key@,
                    value@,
                ));
            }
            i = i + 1;
        }
        let ghost prev = self.items.deep_view();
        self.items.push((String::from_str(key), String::from_str(value)));
        proof {
            assert(full.subrange(i as int, n as int) =~= Seq::<StoreEntry>::empty());
            assert(store_put(Seq::<StoreEntry>::empty(), key@, value@) == seq![(key@, value@)]);
            assert(self.items.deep_view() =~= prev.push((key@, value@)));
            assert(full.subrange(0, i as int) =~= full);
            assert(self.items.deep_view() =~= full.subrange(0, i as int) + store_put(
                full.subrange(i as int, n as int),
                key@,
                value@,
            ));
        }
        Ok(())
    }

    fn get(&self, key: &str) -> (r: Result<String, GfsError>) {
        let ghost full = self.items.deep_view();
        let mut i: usize = 0;
        let n = self.items.len();
        proof {
            assert(full.subrange(0, n as int) =~= full);
        }
        while i < n
            invariant
                i <= n,
                n == self.items.len(),
                self.items.deep_view() == full,
                store_get(full, key@) == store_get(full.subrange(i as int, n as int), key@),
            decreases n - i,
        {
            proof {
                let rest = full.subrange(i as int, n as int);
                assert(rest[0] == full[i as int]);
                assert(rest.drop_first() =~= full.subrange(i + 1, n as int));
            }
            if str_eq(self.items[i].0.as_str(), key) {
                return Ok(self.items[i].1.clone());
            }
            i = i + 1;
        }
        proof {
            assert(full.subrange(i as int, n as int) =~= Seq::<StoreEntry>::empty());
        }
        Err(GfsError::NotFound)
    }

    fn scan_prefix(&self, prefix: &str) -> (r: Result<Vec<String>, GfsError>) {
        let ghost full = self.items.deep_view();
        let mut out: Vec<String> = Vec::new();
        let mut i: usize = 0;
        let n = self.items.len();
        proof {
            assert(full.subrange(0, n as int) =~= full);
            assert(out.deep_view() =~= Seq::<Seq<char>>::empty());
            assert(Seq::<Seq<char>>::empty() + store_scan(full, prefix@) =~= store_scan(
                full,
                prefix@,
            ));
        }
        while i < n
            invariant
                i <= n,
                n == self.items.len(),
                self.items.deep_view() == full,
                store_scan(full, prefix@) == out.deep_view() + store_scan(
                    full.subrange(i as int, n as int),
                    prefix@,
                ),
            decreases n - i,
        {
            proof {
                let rest = full.subrange(i as int, n as int);
                assert(rest[0] == full[i as int]);
                assert(rest.drop_first() =~= full.subrange(i + 1, n as int));
            }
            if str_is_prefix(prefix, self.items[i].0.as_str()) {
                let ghost prev = out.deep_view();
                out.push(self.items[i].1.clone());
                proof {
                    assert(out.deep_view() =~= prev.push(full[i as int].1));
                    assert(prev + (seq![full[i as int].1] + store_scan(
                        full.subrange(i + 1, n as int),
                        prefix@,
                    )) =~= out.deep_view() + store_scan(full.subrange(i + 1, n as int), prefix@));
                }
            }
            i = i + 1;
        }
        proof {
            assert(full.subrange(i as int, n as int) =~= Seq::<StoreEntry>::empty());
            assert(out.deep_view() + Seq::<Seq<char>>::empty() =~= out.deep_view());
        }
        Ok(out)
    }
}

/// An in-memory backend that reports a backend error for `put`s on one
/// designated key, for exercising failure paths of multi-resource
/// registration.
pub struct UnreliableStorageProvider {
    inner: LocalStorageProvider,
    fail_put_key: Option<String>,
}

impl UnreliableStorageProvider {
    /// An empty store that will fail every `put` on `fail_put_key`.
    pub fn new(fail_put_key: Option<String>) -> (r: UnreliableStorageProvider)
        ensures
            r.entries() == Seq::<StoreEntry>::empty(),
            r.spec_fail_put_key() == fail_put_key.deep_view(),
    {
        UnreliableStorageProvider { inner: LocalStorageProvider::new(), fail_put_key }
    }

    /// The key whose `put`s fail.
    pub closed spec fn spec_fail_put_key(&self) -> Option<Seq<char>> {
        self.fail_put_key.deep_view()
    }
}

impl StorageProvider for UnreliableStorageProvider {
    closed spec fn entries(&self) -> Seq<StoreEntry> {
        self.inner.entries()
    }

    fn put(&mut self, key: &str, value: &str) -> (r: Result<(), GfsError>) {
        let fail = match &self.fail_put_key {
            Some(k) => str_eq(k.as_str(), key),
            None => false,
        };
        if fail {
            Err(GfsError::BackendError)
        } else {
            self.inner.put(key, value)
        }
    }

    fn get(&self, key: &str) -> (r: Result<String, GfsError>) {
        self.inner.get(key)
    }

    fn scan_prefix(&self, prefix: &str) -> (r: Result<Vec<String>, GfsError>) {
        self.inner.scan_prefix(prefix)
    }
}

} // verus!
