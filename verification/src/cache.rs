//! The in-memory cache: one entry per dataset key, each holding the latest
//! payload and a change counter that advances by one on every accepted
//! update.

use vstd::prelude::*;
use crate::dataset::DatasetKey;

verus! {

/// The content every entry holds until its source file is first seen: the
/// bytes of an empty JSON array, `[]`.
pub open spec fn placeholder_spec() -> Seq<u8> {
    seq![91u8, 93u8]
}

/// The placeholder payload, `[]`, as bytes.
pub fn placeholder() -> (r: Vec<u8>)
    ensures
        r@ == placeholder_spec(),
{
    let mut v: Vec<u8> = Vec::new();
    v.push(91u8);
    v.push(93u8);
    proof {
        assert(v@ =~= placeholder_spec());
    }
    v
}

/// The latest payload of one dataset together with its version: the change
/// counter starts at zero and advances by exactly one on every accepted
/// update, so a reader can tell a fresh value from an unchanged one.
pub struct CacheableJson {
    pub content: Vec<u8>,
    pub version: u64,
}

impl CacheableJson {
    /// A fresh entry: placeholder content, version zero.
    pub fn new() -> (r: CacheableJson)
        ensures
            r.content@ == placeholder_spec(),
            r.version == 0,
    {
        CacheableJson { content: placeholder(), version: 0 }
    }

    /// Read the entry: the content and its matching version as one pair.
    /// The pair belongs together — a caller never sees the content of one
    /// update with the version of another.
    pub fn snapshot(&self) -> (r: (Vec<u8>, u64))
        ensures
            r.0@ == self.content@,
            r.1 == self.version,
    {
        (vstd::slice::slice_to_vec(self.content.as_slice()), self.version)
    }

    /// Replace the content and advance the version by exactly one.
    pub fn set(&mut self, content: Vec<u8>)
        requires
            old(self).version < u64::MAX,
        ensures
            final(self).content@ == content@,
            final(self).version == old(self).version + 1,
    {
        self.content = content;
        self.version = self.version + 1;
    }
}

/// The cache proper: one entry per known dataset key, all present from the
/// start; no entry is ever removed.
pub struct Cache {
    pub focus: CacheableJson,
    pub nearest: CacheableJson,
    pub entries: CacheableJson,
    pub event: CacheableJson,
    pub groups: CacheableJson,
    pub results_indv: CacheableJson,
    pub results_team: CacheableJson,
}

impl Cache {
    /// The entry that a key owns.
    pub open spec fn entry_spec(&self, k: DatasetKey) -> CacheableJson {
        match k {
            DatasetKey::Focus => self.focus,
            DatasetKey::Nearest => self.nearest,
            DatasetKey::Entries => self.entries,
            DatasetKey::Event => self.event,
            DatasetKey::Groups => self.groups,
            DatasetKey::ResultsIndv => self.results_indv,
            DatasetKey::ResultsTeam => self.results_team,
        }
    }

    /// A cache as it stands at startup: every key maps to the placeholder
    /// at version zero.
    pub fn new() -> (r: Cache)
        ensures
            forall|k: DatasetKey|
                #[trigger] r.entry_spec(k).content@ == placeholder_spec()
                    && r.entry_spec(k).version == 0,
    {
        Cache {
            focus: CacheableJson::new(),
            nearest: CacheableJson::new(),
            entries: CacheableJson::new(),
            event: CacheableJson::new(),
            groups: CacheableJson::new(),
            results_indv: CacheableJson::new(),
            results_team: CacheableJson::new(),
        }
    }

    /// Read a key's entry: its content and matching version as one pair.
    pub fn get(&self, k: DatasetKey) -> (r: (Vec<u8>, u64))
        ensures
            r.0@ == self.entry_spec(k).content@,
            r.1 == self.entry_spec(k).version,
    {
        match k {
            DatasetKey::Focus => self.focus.snapshot(),
            DatasetKey::Nearest => self.nearest.snapshot(),
            DatasetKey::Entries => self.entries.snapshot(),
            DatasetKey::Event => self.event.snapshot(),
            DatasetKey::Groups => self.groups.snapshot(),
            DatasetKey::ResultsIndv => self.results_indv.snapshot(),
            DatasetKey::ResultsTeam => self.results_team.snapshot(),
        }
    }

    /// Replace a key's content and advance its version by exactly one;
    /// every other key's entry is left untouched.
    pub fn set(&mut self, k: DatasetKey, content: Vec<u8>)
        requires
            old(self).entry_spec(k).version < u64::MAX,
        ensures
            final(self).entry_spec(k).content@ == content@,
            final(self).entry_spec(k).version == old(self).entry_spec(k).version + 1,
            forall|k2: DatasetKey|
                k2 != k ==> #[trigger] final(self).entry_spec(k2) == old(self).entry_spec(k2),
    {
        match k {
            DatasetKey::Focus => self.focus.set(content),
            DatasetKey::Nearest => self.nearest.set(content),
            DatasetKey::Entries => self.entries.set(content),
            DatasetKey::Event => self.event.set(content),
            DatasetKey::Groups => self.groups.set(content),
            DatasetKey::ResultsIndv => self.results_indv.set(content),
            DatasetKey::ResultsTeam => self.results_team.set(content),
        }
    }

    /// A borrow of the entry that a key owns.
    pub fn entry_ref(&self, k: DatasetKey) -> (r: &CacheableJson)
        ensures
            *r == self.entry_spec(k),
    {
        match k {
            DatasetKey::Focus => &self.focus,
            DatasetKey::Nearest => &self.nearest,
            DatasetKey::Entries => &self.entries,
            DatasetKey::Event => &self.event,
            DatasetKey::Groups => &self.groups,
            DatasetKey::ResultsIndv => &self.results_indv,
            DatasetKey::ResultsTeam => &self.results_team,
        }
    }

    /// The focus dataset's entry.
    pub fn focus_data(&self) -> (r: &CacheableJson)
        ensures
            *r == self.entry_spec(DatasetKey::Focus),
    {
        &self.focus
    }

    /// The nearest dataset's entry.
    pub fn nearest_data(&self) -> (r: &CacheableJson)
        ensures
            *r == self.entry_spec(DatasetKey::Nearest),
    {
        &self.nearest
    }

    /// The entries dataset's entry.
    pub fn entries_data(&self) -> (r: &CacheableJson)
        ensures
            *r == self.entry_spec(DatasetKey::Entries),
    {
        &self.entries
    }

    /// The event dataset's entry.
    pub fn event_data(&self) -> (r: &CacheableJson)
        ensures
            *r == self.entry_spec(DatasetKey::Event),
    {
        &self.event
    }

    /// The groups dataset's entry.
    pub fn groups_data(&self) -> (r: &CacheableJson)
        ensures
            *r == self.entry_spec(DatasetKey::Groups),
    {
        &self.groups
    }

    /// The individual-results dataset's entry.
    pub fn results_indv_data(&self) -> (r: &CacheableJson)
        ensures
            *r == self.entry_spec(DatasetKey::ResultsIndv),
    {
        &self.results_indv
    }

    /// The team-results dataset's entry.
    pub fn results_team_data(&self) -> (r: &CacheableJson)
        ensures
            *r == self.entry_spec(DatasetKey::ResultsTeam),
    {
        &self.results_team
    }
}

} // verus!
