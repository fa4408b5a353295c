//! The cache and the watcher's decisions: placeholder state, version
//! bumps, byte-order-mark stripping, per-key isolation.

use tpvbc2http::bom::strip_bom;
use tpvbc2http::cache::{placeholder, Cache, CacheableJson};
use tpvbc2http::dataset::{all_keys, file_name, key_for_file, key_for_route, route_name, DatasetKey};
use tpvbc2http::server::Instance;
use tpvbc2http::watcher::{apply_event, event_qualifies, ChangeKind, WatcherConfig};

#[test]
fn placeholder_is_empty_json_array() {
    assert_eq!(placeholder(), b"[]".to_vec());
}

#[test]
fn cache_starts_with_placeholder_at_version_zero() {
    let cache = Cache::new();
    for k in all_keys() {
        let (content, version) = cache.get(k);
        assert_eq!(content, b"[]".to_vec());
        assert_eq!(version, 0);
    }
}

#[test]
fn instance_starts_with_placeholder_at_version_zero() {
    let inst = Instance::new();
    for k in all_keys() {
        let (content, version) = inst.cache().get(k);
        assert_eq!(content, b"[]".to_vec());
        assert_eq!(version, 0);
    }
}

#[test]
fn entry_set_replaces_content_and_bumps_version_by_one() {
    let mut e = CacheableJson::new();
    e.set(b"{\"a\":1}".to_vec());
    let (content, version) = e.snapshot();
    assert_eq!(content, b"{\"a\":1}".to_vec());
    assert_eq!(version, 1);
    e.set(b"{\"a\":2}".to_vec());
    let (content, version) = e.snapshot();
    assert_eq!(content, b"{\"a\":2}".to_vec());
    assert_eq!(version, 2);
}

#[test]
fn cache_set_leaves_other_keys_untouched() {
    let mut cache = Cache::new();
    cache.set(DatasetKey::Focus, b"{\"a\":1}".to_vec());
    let (content, version) = cache.get(DatasetKey::Focus);
    assert_eq!(content, b"{\"a\":1}".to_vec());
    assert_eq!(version, 1);
    for k in all_keys() {
        if k != DatasetKey::Focus {
            let (content, version) = cache.get(k);
            assert_eq!(content, b"[]".to_vec());
            assert_eq!(version, 0);
        }
    }
}

#[test]
fn named_accessors_reach_their_entries() {
    let mut cache = Cache::new();
    cache.set(DatasetKey::Nearest, b"[7]".to_vec());
    cache.set(DatasetKey::ResultsTeam, b"[8]".to_vec());
    assert_eq!(cache.focus_data().content, b"[]".to_vec());
    assert_eq!(cache.nearest_data().content, b"[7]".to_vec());
    assert_eq!(cache.nearest_data().version, 1);
    assert_eq!(cache.entries_data().version, 0);
    assert_eq!(cache.event_data().version, 0);
    assert_eq!(cache.groups_data().version, 0);
    assert_eq!(cache.results_indv_data().version, 0);
    assert_eq!(cache.results_team_data().content, b"[8]".to_vec());
}

#[test]
fn strip_bom_removes_utf8_mark() {
    assert_eq!(strip_bom(b"\xEF\xBB\xBF[]"), b"[]".to_vec());
}

#[test]
fn strip_bom_removes_utf16_le_mark() {
    assert_eq!(strip_bom(b"\xFF\xFEab"), b"ab".to_vec());
}

#[test]
fn strip_bom_keeps_unmarked_payload() {
    assert_eq!(strip_bom(b"{\"a\":1}"), b"{\"a\":1}".to_vec());
    assert_eq!(strip_bom(b""), b"".to_vec());
}

#[test]
fn key_for_file_matches_each_source_file() {
    assert_eq!(key_for_file("focus.json"), Some(DatasetKey::Focus));
    assert_eq!(key_for_file("nearest.json"), Some(DatasetKey::Nearest));
    assert_eq!(key_for_file("entries.json"), Some(DatasetKey::Entries));
    assert_eq!(key_for_file("event.json"), Some(DatasetKey::Event));
    assert_eq!(key_for_file("groups.json"), Some(DatasetKey::Groups));
    assert_eq!(key_for_file("resultsIndv.json"), Some(DatasetKey::ResultsIndv));
    assert_eq!(key_for_file("resultsTeam.json"), Some(DatasetKey::ResultsTeam));
    assert_eq!(key_for_file("other.json"), None);
    assert_eq!(key_for_file("focus.json.bak"), None);
    assert_eq!(key_for_file(""), None);
}

#[test]
fn key_for_route_matches_each_segment() {
    assert_eq!(key_for_route("focus"), Some(DatasetKey::Focus));
    assert_eq!(key_for_route("nearest"), Some(DatasetKey::Nearest));
    assert_eq!(key_for_route("entries"), Some(DatasetKey::Entries));
    assert_eq!(key_for_route("event"), Some(DatasetKey::Event));
    assert_eq!(key_for_route("groups"), Some(DatasetKey::Groups));
    assert_eq!(key_for_route("resultsIndv"), Some(DatasetKey::ResultsIndv));
    assert_eq!(key_for_route("resultsTeam"), Some(DatasetKey::ResultsTeam));
    assert_eq!(key_for_route("unknown"), None);
    assert_eq!(key_for_route("Focus"), None);
}

#[test]
fn each_key_names_its_route_and_file() {
    for k in all_keys() {
        // The source file is the route segment plus the .json suffix, and
        // both resolve back to the key they belong to.
        assert_eq!(file_name(k), format!("{}.json", route_name(k)));
        assert_eq!(key_for_route(route_name(k)), Some(k));
        assert_eq!(key_for_file(file_name(k)), Some(k));
    }
    assert_eq!(route_name(DatasetKey::Focus), "focus");
    assert_eq!(file_name(DatasetKey::ResultsIndv), "resultsIndv.json");
}

#[test]
fn instance_feeds_its_cache_through_the_watcher() {
    let mut inst = Instance::new();
    let updated = apply_event(inst.cache_mut(), "groups.json", b"[5]");
    assert_eq!(updated, Some(DatasetKey::Groups));
    let (content, version) = inst.cache().get(DatasetKey::Groups);
    assert_eq!(content, b"[5]".to_vec());
    assert_eq!(version, 1);
}

#[test]
fn qualifying_event_updates_the_right_entry() {
    let mut cache = Cache::new();
    let updated = apply_event(&mut cache, "focus.json", b"{\"a\":1}");
    assert_eq!(updated, Some(DatasetKey::Focus));
    let (content, version) = cache.get(DatasetKey::Focus);
    assert_eq!(content, b"{\"a\":1}".to_vec());
    assert_eq!(version, 1);
    let (content, version) = cache.get(DatasetKey::Nearest);
    assert_eq!(content, b"[]".to_vec());
    assert_eq!(version, 0);
}

#[test]
fn event_on_marked_payload_stores_it_stripped() {
    let mut cache = Cache::new();
    let updated = apply_event(&mut cache, "event.json", b"\xEF\xBB\xBF[1]");
    assert_eq!(updated, Some(DatasetKey::Event));
    let (content, version) = cache.get(DatasetKey::Event);
    assert_eq!(content, b"[1]".to_vec());
    assert_eq!(version, 1);
}

#[test]
fn event_on_unrecognized_file_is_ignored() {
    let mut cache = Cache::new();
    let updated = apply_event(&mut cache, "notes.txt", b"{\"a\":1}");
    assert_eq!(updated, None);
    for k in all_keys() {
        let (content, version) = cache.get(k);
        assert_eq!(content, b"[]".to_vec());
        assert_eq!(version, 0);
    }
}

#[test]
fn only_the_configured_event_kind_qualifies() {
    let cfg = WatcherConfig::new(ChangeKind::Access);
    assert!(event_qualifies(&cfg, ChangeKind::Access));
    assert!(!event_qualifies(&cfg, ChangeKind::Modify));
    assert!(!event_qualifies(&cfg, ChangeKind::Other));
    let cfg = WatcherConfig::new(ChangeKind::Modify);
    assert!(event_qualifies(&cfg, ChangeKind::Modify));
    assert!(!event_qualifies(&cfg, ChangeKind::Access));
}

#[test]
fn config_defaults_and_overrides() {
    let mut s = tpvbc2http::config::Server::new();
    assert_eq!(s.get_bind_addr(), "0.0.0.0:8080");
    assert_eq!(s.get_tpv_bcast_file_loc(), "/home/stefan/shared/");
    assert_eq!(s.get_static_content_loc(), "/home/stefan/devel/tpvbc2http/http");
    s.set_bind_addr("127.0.0.1:9090".to_string());
    s.set_tpv_bcast_file_loc("/tmp/bcast/".to_string());
    s.set_static_content_loc("/tmp/http".to_string());
    assert_eq!(s.get_bind_addr(), "127.0.0.1:9090");
    assert_eq!(s.get_tpv_bcast_file_loc(), "/tmp/bcast/");
    assert_eq!(s.get_static_content_loc(), "/tmp/http");
}
