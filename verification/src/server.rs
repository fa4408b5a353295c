//! The server instance: the one cache that the watcher fills and the HTTP
//! handlers read, owned explicitly and passed by reference — no ambient
//! globals.

use vstd::prelude::*;
use crate::cache::{placeholder_spec, Cache};
use crate::dataset::DatasetKey;

verus! {

/// One running instance's state: the cache, constructed once at startup
/// and shared by the watcher and every request handler for the life of
/// the process.
pub struct Instance {
    pub cache: Cache,
}

impl Instance {
    /// A fresh instance: every dataset holds the placeholder at version
    /// zero.
    pub fn new() -> (r: Instance)
        ensures
            forall|k: DatasetKey|
                #[trigger] r.cache.entry_spec(k).content@ == placeholder_spec()
                    && r.cache.entry_spec(k).version == 0,
    {
        Instance { cache: Cache::new() }
    }

    /// A borrow of the cache, for readers.
    pub fn cache(&self) -> (r: &Cache)
        ensures
            *r == self.cache,
    {
        &self.cache
    }

    /// A mutable borrow of the cache, for the watcher.
    pub fn cache_mut(&mut self) -> (r: &mut Cache)
        ensures
            *r == old(self).cache,
            *final(self) == (Instance { cache: *final(r) }),
    {
        &mut self.cache
    }
}

} // verus!
