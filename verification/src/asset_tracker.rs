//! Registry from a logical asset key to the handle of a loaded resource.
//!
//! Entries are only ever appended. A lookup scans from the front, so the first
//! entry registered for a key is the one that answers.

use vstd::prelude::*;

verus! {

/// A type whose values can serve as keys of a registry: it can tell whether
/// two of them are the same.
pub trait AssetKey: Sized {
    /// Whether `self` and `other` are the same key.
    fn same_key(&self, other: &Self) -> (same: bool)
        ensures
            same == (*self == *other),
    ;
}

/// One registered asset: its key and the handle it was loaded under.
pub struct AssetReference<T, H> {
    pub asset: T,
    pub handle: H,
}

/// The registry, in order of registration.
pub struct AssetTracker<T, H> {
    pub assets: Vec<AssetReference<T, H>>,
}

impl<T, H> Default for AssetTracker<T, H> {
    fn default() -> (tracker: Self)
        ensures
            tracker.assets@ == Seq::<AssetReference<T, H>>::empty(),
    {
        AssetTracker { assets: Vec::new() }
    }
}

impl<T, H> AssetTracker<T, H> {
    /// Appends `(key, handle)`. Earlier entries stay where they are, a second
    /// entry for a key included.
    pub fn register(&mut self, key: T, handle: H)
        ensures
            final(self).assets@ == old(self).assets@.push(AssetReference { asset: key, handle }),
    {
        self.assets.push(AssetReference { asset: key, handle });
    }
}

impl<T, H> AssetTracker<T, H> {
    /// Entry `i` is the first one whose key equals `target`.
    pub open spec fn first_at(&self, target: T, i: int) -> bool {
        &&& 0 <= i < self.assets@.len()
        &&& self.assets@[i].asset == target
        &&& forall|j: int| 0 <= j < i ==> (#[trigger] self.assets@[j]).asset != target
    }

    /// Some entry is registered under `target`.
    pub open spec fn has(&self, target: T) -> bool {
        exists|i: int|
            0 <= i < self.assets@.len() && (#[trigger] self.assets@[i]).asset == target
    }

    /// The handle that a lookup of `target` yields: that of the first entry
    /// registered under it, or nothing.
    pub open spec fn lookup(&self, target: T) -> Option<H> {
        if self.has(target) {
            Some(self.assets@[choose|i: int| self.first_at(target, i)].handle)
        } else {
            None
        }
    }

    /// A key that has an entry has a first one.
    pub proof fn lemma_has_first(&self, target: T)
        requires
            self.has(target),
        ensures
            exists|i: int| self.first_at(target, i),
    {
        let k = choose|k: int|
            0 <= k < self.assets@.len() && (#[trigger] self.assets@[k]).asset == target;
        self.lemma_first_up_to(target, k);
    }

    proof fn lemma_first_up_to(&self, target: T, k: int)
        requires
            0 <= k < self.assets@.len(),
            self.assets@[k].asset == target,
        ensures
            exists|i: int| self.first_at(target, i),
        decreases k,
    {
        if exists|j: int| 0 <= j < k && (#[trigger] self.assets@[j]).asset == target {
            let j = choose|j: int|
                0 <= j < k && (#[trigger] self.assets@[j]).asset == target;
            self.lemma_first_up_to(target, j);
        } else {
            assert(self.first_at(target, k));
        }
    }

    /// The first entry for a key is the one that `lookup` names.
    pub proof fn lemma_first_is_found(&self, target: T, i: int)
        requires
            self.first_at(target, i),
        ensures
            self.has(target),
            self.lookup(target) == Some(self.assets@[i].handle),
    {
        let k = choose|k: int| self.first_at(target, k);
        assert(self.first_at(target, k));
        assert(k == i) by {
            if k < i {
                assert(self.assets@[k].asset != target);
            }
            if i < k {
                assert(self.assets@[i].asset != target);
            }
        }
    }
}

/// A lookup after one more registration: an answer that was there stays (the
/// first entry wins), a key that was missing is found if it is the new one.
pub proof fn lemma_lookup_after_register<T, H>(
    before: AssetTracker<T, H>,
    after: AssetTracker<T, H>,
    key: T,
    handle: H,
    target: T,
)
    requires
        after.assets@ == before.assets@.push(AssetReference { asset: key, handle }),
    ensures
        after.lookup(target) == if before.has(target) {
            before.lookup(target)
        } else if key == target {
            Some(handle)
        } else {
            None
        },
{
    let n = before.assets@.len() as int;
    assert(forall|j: int| 0 <= j < n ==> after.assets@[j] == before.assets@[j]);
    if before.has(target) {
        let i = choose|i: int| before.first_at(target, i);
        assert(before.first_at(target, i)) by {
            before.lemma_has_first(target);
        }
        before.lemma_first_is_found(target, i);
        assert(after.first_at(target, i));
        after.lemma_first_is_found(target, i);
    } else if key == target {
        assert(after.assets@[n].asset == key);
        assert(after.first_at(target, n)) by {
            assert forall|j: int| 0 <= j < n implies (#[trigger] after.assets@[j]).asset
                != target by {
                assert(after.assets@[j] == before.assets@[j]);
            }
        }
        after.lemma_first_is_found(target, n);
    } else {
        assert(!after.has(target)) by {
            assert forall|j: int| 0 <= j < after.assets@.len() implies (
            #[trigger] after.assets@[j]).asset != target by {
                if j < n {
                    assert(after.assets@[j] == before.assets@[j]);
                }
            }
        }
    }
}

/// Registering `handle` under a key that has no entry yet, then looking the
/// key up, gives `handle` back; a key without an entry gives nothing.
pub proof fn lemma_register_then_lookup<T, H>(
    before: AssetTracker<T, H>,
    after: AssetTracker<T, H>,
    key: T,
    handle: H,
    other: T,
)
    requires
        after.assets@ == before.assets@.push(AssetReference { asset: key, handle }),
        !before.has(key),
    ensures
        after.lookup(key) == Some(handle),
        !after.has(other) ==> after.lookup(other) is None,
{
    lemma_lookup_after_register(before, after, key, handle, key);
}

impl<T: AssetKey, H: Copy> AssetTracker<T, H> {
    /// Looks `target` up, front to back. A miss is no error: the asset is
    /// not there yet.
    pub fn get_handle(&self, target: T) -> (found: Option<H>)
        ensures
            found == self.lookup(target),
    {
        let n = self.assets.len();
        let mut i: usize = 0;
        while i < n
            invariant
                n == self.assets@.len(),
                i <= n,
                forall|j: int| 0 <= j < i ==> (#[trigger] self.assets@[j]).asset != target,
            decreases n - i,
        {
            if self.assets[i].asset.same_key(&target) {
                proof {
                    self.lemma_first_is_found(target, i as int);
                }
                return Some(self.assets[i].handle);
            }
            i += 1;
        }
        None
    }
}

} // verus!
