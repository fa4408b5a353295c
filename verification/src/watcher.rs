//! The change watcher's decisions: which raw filesystem events qualify as
//! a completed write, and what one qualifying event does to the cache.
//!
//! The watch itself — registering against the directory, receiving raw
//! events, reading the changed file — is an external collaborator. It
//! hands this module the event's kind, the changed file's name and the
//! bytes read, and this module decides the rest.

use vstd::prelude::*;
use crate::bom::{bom_len_of, strip_bom};
use crate::cache::Cache;
use crate::dataset::{key_for_file, key_for_file_spec, DatasetKey};

verus! {

/// The category of a raw filesystem event, as far as the watcher cares:
/// operating systems announce "a file was fully written and is now
/// readable" either as an access-after-write or as a plain modify.
#[derive(Clone, Copy, PartialEq, Eq, Structural, Debug)]
pub enum ChangeKind {
    Access,
    Modify,
    Other,
}

/// The watcher's per-platform strategy, chosen once at startup: which
/// event category announces a completed write.
#[derive(Clone, Copy, PartialEq, Eq, Structural, Debug)]
pub struct WatcherConfig {
    pub settle_kind: ChangeKind,
}

impl WatcherConfig {
    /// A watcher that reacts to the given event category.
    pub fn new(settle_kind: ChangeKind) -> (r: WatcherConfig)
        ensures
            r.settle_kind == settle_kind,
    {
        WatcherConfig { settle_kind }
    }
}

/// Whether a raw event announces a completed write under this strategy.
pub fn event_qualifies(cfg: &WatcherConfig, kind: ChangeKind) -> (r: bool)
    ensures
        r == (kind == cfg.settle_kind),
{
    kind == cfg.settle_kind
}

/// What one qualifying event does to the cache, given the changed file's
/// name (its final path component) and the bytes that were read from it:
/// a name that maps to no dataset leaves the cache untouched; a known name
/// replaces that dataset's content with the payload minus any leading
/// byte-order mark, advances its version by exactly one, and touches no
/// other dataset.
///
/// A failed read never reaches this function: the event is skipped and the
/// prior value retained, so readers are served the last good payload.
pub fn apply_event(cache: &mut Cache, file: &str, raw: &[u8]) -> (r: Option<DatasetKey>)
    requires
        (key_for_file_spec(file@) matches Some(k)
            ==> old(cache).entry_spec(k).version < u64::MAX),
    ensures
        r == key_for_file_spec(file@),
        key_for_file_spec(file@) is None ==> *final(cache) == *old(cache),
        forall|k: DatasetKey|
            key_for_file_spec(file@) == Some(k) ==> {
                &&& final(cache).entry_spec(k).content@ == raw@.skip(bom_len_of(raw@) as int)
                &&& final(cache).entry_spec(k).version == old(cache).entry_spec(k).version + 1
                &&& forall|k2: DatasetKey|
                    k2 != k ==> #[trigger] final(cache).entry_spec(k2) == old(cache).entry_spec(
                        k2,
                    )
            },
{
    match key_for_file(file) {
        Option::None => None,
        Option::Some(k) => {
            let content = strip_bom(raw);
            cache.set(k, content);
            Some(k)
        },
    }
}

} // verus!
