//! The fixed registry of dataset keys: their route segments and their
//! source file names.

use vstd::prelude::*;

verus! {

/// The closed set of logical dataset names that the bridge serves.
#[derive(Clone, Copy, PartialEq, Eq, Structural, Debug)]
pub enum DatasetKey {
    Focus,
    Nearest,
    Entries,
    Event,
    Groups,
    ResultsIndv,
    ResultsTeam,
}

/// The route segment under which a dataset is served.
pub open spec fn route_name_spec(k: DatasetKey) -> Seq<char> {
    match k {
        DatasetKey::Focus => "focus"@,
        DatasetKey::Nearest => "nearest"@,
        DatasetKey::Entries => "entries"@,
        DatasetKey::Event => "event"@,
        DatasetKey::Groups => "groups"@,
        DatasetKey::ResultsIndv => "resultsIndv"@,
        DatasetKey::ResultsTeam => "resultsTeam"@,
    }
}

/// The name of the source file whose writes feed a dataset.
pub open spec fn file_name_spec(k: DatasetKey) -> Seq<char> {
    match k {
        DatasetKey::Focus => "focus.json"@,
        DatasetKey::Nearest => "nearest.json"@,
        DatasetKey::Entries => "entries.json"@,
        DatasetKey::Event => "event.json"@,
        DatasetKey::Groups => "groups.json"@,
        DatasetKey::ResultsIndv => "resultsIndv.json"@,
        DatasetKey::ResultsTeam => "resultsTeam.json"@,
    }
}

pub fn route_name(k: DatasetKey) -> (r: &'static str)
    ensures
        r@ == route_name_spec(k),
{
    match k {
        DatasetKey::Focus => "focus",
        DatasetKey::Nearest => "nearest",
        DatasetKey::Entries => "entries",
        DatasetKey::Event => "event",
        DatasetKey::Groups => "groups",
        DatasetKey::ResultsIndv => "resultsIndv",
        DatasetKey::ResultsTeam => "resultsTeam",
    }
}

pub fn file_name(k: DatasetKey) -> (r: &'static str)
    ensures
        r@ == file_name_spec(k),
{
    match k {
        DatasetKey::Focus => "focus.json",
        DatasetKey::Nearest => "nearest.json",
        DatasetKey::Entries => "entries.json",
        DatasetKey::Event => "event.json",
        DatasetKey::Groups => "groups.json",
        DatasetKey::ResultsIndv => "resultsIndv.json",
        DatasetKey::ResultsTeam => "resultsTeam.json",
    }
}

/// Every known dataset key, each exactly once.
pub fn all_keys() -> (r: Vec<DatasetKey>)
    ensures
        r@ =~= seq![
            DatasetKey::Focus,
            DatasetKey::Nearest,
            DatasetKey::Entries,
            DatasetKey::Event,
            DatasetKey::Groups,
            DatasetKey::ResultsIndv,
            DatasetKey::ResultsTeam,
        ],
{
    let mut v: Vec<DatasetKey> = Vec::new();
    v.push(DatasetKey::Focus);
    v.push(DatasetKey::Nearest);
    v.push(DatasetKey::Entries);
    v.push(DatasetKey::Event);
    v.push(DatasetKey::Groups);
    v.push(DatasetKey::ResultsIndv);
    v.push(DatasetKey::ResultsTeam);
    v
}

/// Whether two string slices hold the same characters.
pub fn str_eq(a: &str, b: &str) -> (r: bool)
    ensures
        r == (a@ == b@),
{
    let sa: String = a.to_owned();
    let sb: String = b.to_owned();
    sa == sb
}

/// The key whose route segment is `name`, if any.
pub open spec fn key_for_route_spec(name: Seq<char>) -> Option<DatasetKey> {
    if name == route_name_spec(DatasetKey::Focus) {
        Some(DatasetKey::Focus)
    } else if name == route_name_spec(DatasetKey::Nearest) {
        Some(DatasetKey::Nearest)
    } else if name == route_name_spec(DatasetKey::Entries) {
        Some(DatasetKey::Entries)
    } else if name == route_name_spec(DatasetKey::Event) {
        Some(DatasetKey::Event)
    } else if name == route_name_spec(DatasetKey::Groups) {
        Some(DatasetKey::Groups)
    } else if name == route_name_spec(DatasetKey::ResultsIndv) {
        Some(DatasetKey::ResultsIndv)
    } else if name == route_name_spec(DatasetKey::ResultsTeam) {
        Some(DatasetKey::ResultsTeam)
    } else {
        None
    }
}

pub fn key_for_route(name: &str) -> (r: Option<DatasetKey>)
    ensures
        r == key_for_route_spec(name@),
{
    if str_eq(name, "focus") {
        Some(DatasetKey::Focus)
    } else if str_eq(name, "nearest") {
        Some(DatasetKey::Nearest)
    } else if str_eq(name, "entries") {
        Some(DatasetKey::Entries)
    } else if str_eq(name, "event") {
        Some(DatasetKey::Event)
    } else if str_eq(name, "groups") {
        Some(DatasetKey::Groups)
    } else if str_eq(name, "resultsIndv") {
        Some(DatasetKey::ResultsIndv)
    } else if str_eq(name, "resultsTeam") {
        Some(DatasetKey::ResultsTeam)
    } else {
        None
    }
}

/// The key fed by the source file named `name` (the final path component of
/// the changed file), if any.
pub open spec fn key_for_file_spec(name: Seq<char>) -> Option<DatasetKey> {
    if name == file_name_spec(DatasetKey::Focus) {
        Some(DatasetKey::Focus)
    } else if name == file_name_spec(DatasetKey::Nearest) {
        Some(DatasetKey::Nearest)
    } else if name == file_name_spec(DatasetKey::Entries) {
        Some(DatasetKey::Entries)
    } else if name == file_name_spec(DatasetKey::Event) {
        Some(DatasetKey::Event)
    } else if name == file_name_spec(DatasetKey::Groups) {
        Some(DatasetKey::Groups)
    } else if name == file_name_spec(DatasetKey::ResultsIndv) {
        Some(DatasetKey::ResultsIndv)
    } else if name == file_name_spec(DatasetKey::ResultsTeam) {
        Some(DatasetKey::ResultsTeam)
    } else {
        None
    }
}

pub fn key_for_file(name: &str) -> (r: Option<DatasetKey>)
    ensures
        r == key_for_file_spec(name@),
{
    if str_eq(name, "focus.json") {
        Some(DatasetKey::Focus)
    } else if str_eq(name, "nearest.json") {
        Some(DatasetKey::Nearest)
    } else if str_eq(name, "entries.json") {
        Some(DatasetKey::Entries)
    } else if str_eq(name, "event.json") {
        Some(DatasetKey::Event)
    } else if str_eq(name, "groups.json") {
        Some(DatasetKey::Groups)
    } else if str_eq(name, "resultsIndv.json") {
        Some(DatasetKey::ResultsIndv)
    } else if str_eq(name, "resultsTeam.json") {
        Some(DatasetKey::ResultsTeam)
    } else {
        None
    }
}

} // verus!
