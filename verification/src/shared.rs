//! The process-wide, concurrently readable class cache: a `ClassMap` behind
//! vstd's verified reader/writer lock. Readers acquire shared access and
//! never block one another; a writer acquires exclusive access and blocks
//! all readers and writers. A reader borrows the whole map value, so a
//! lookup can never observe a torn or partial entry, and the lock's
//! invariant — every cached handle is non-null, as a runtime class pointer
//! is — holds of everything a reader sees. The cache is built once at
//! process start and passed by shared reference to every component that
//! resolves classes.

use vstd::prelude::*;
use vstd::rwlock::{RwLock, RwLockPredicate};
use crate::cache::ClassMap;

verus! {

/// The lock invariant: the cache never holds a null class handle.
pub struct NonNullHandles;

impl RwLockPredicate<ClassMap> for NonNullHandles {
    open spec fn inv(self, v: ClassMap) -> bool {
        forall|k: (Seq<char>, Option<Seq<char>>)|
            #[trigger] v.contents().contains_key(k) ==> v.contents()[k] != 0
    }
}

/// The shared, mutually-exclusive-writable, concurrently-readable cache.
pub struct SharedClassMap {
    lock: RwLock<ClassMap, NonNullHandles>,
}

impl SharedClassMap {
    /// Builds the process-wide cache, initially empty.
    pub fn new() -> (m: Self) {
        let inner = ClassMap::new();
        SharedClassMap { lock: RwLock::new(inner, Ghost(NonNullHandles)) }
    }

    /// Looks a class up under shared read access; concurrent readers
    /// proceed in parallel. A returned handle is one that some `store` or
    /// adoption put there, and is therefore non-null.
    pub fn load(&self, class_name: &str, superclass_name: Option<&str>) -> (r: Option<u64>)
        ensures
            r matches Some(h) ==> h != 0,
    {
        let read_handle = self.lock.acquire_read();
        let r = read_handle.borrow().load(class_name, superclass_name);
        read_handle.release_read();
        r
    }

    /// Stores a class handle under exclusive write access, superseding any
    /// earlier entry for the key.
    pub fn store(&self, class_name: &str, superclass_name: Option<&str>, handle: u64)
        requires
            handle != 0,
    {
        let (mut inner, write_handle) = self.lock.acquire_write();
        let ghost pre: ClassMap = inner;
        inner.store(class_name, superclass_name, handle);
        proof {
            assert forall|k: (Seq<char>, Option<Seq<char>>)|
                #[trigger] inner.contents().contains_key(k) implies inner.contents()[k] != 0 by {
                if k != (class_name@, crate::cache::opt_name_view(superclass_name)) {
                    assert(pre.contents().contains_key(k));
                }
            }
        }
        write_handle.release_write(inner);
    }

    /// Adopts the host runtime's reply to an existence query under exclusive
    /// write access, as `ClassMap::adopt_runtime_class` does. A runtime class
    /// pointer is never null, so a confirmed reply carries a non-null handle.
    pub fn adopt_runtime_class(
        &self,
        class_name: &str,
        superclass_name: Option<&str>,
        runtime_class: Option<u64>,
    ) -> (r: Option<u64>)
        requires
            runtime_class matches Some(h) ==> h != 0,
        ensures
            r == runtime_class,
    {
        let (mut inner, write_handle) = self.lock.acquire_write();
        let ghost pre: ClassMap = inner;
        let r = inner.adopt_runtime_class(class_name, superclass_name, runtime_class);
        proof {
            assert forall|k: (Seq<char>, Option<Seq<char>>)|
                #[trigger] inner.contents().contains_key(k) implies inner.contents()[k] != 0 by {
                if k != (class_name@, crate::cache::opt_name_view(superclass_name)) {
                    assert(pre.contents().contains_key(k));
                }
            }
        }
        write_handle.release_write(inner);
        r
    }
}

} // verus!
