use mod_discovery::engine::{CategoryScanResult, Engine};
use mod_discovery::entry::{
    category_subdirectory, classify, marker_file_name, Classification, EntryKind, FsEntry,
    ModCategory,
};
use mod_discovery::scan::scan_category;

fn dir(name: &str) -> FsEntry {
    FsEntry { name: name.to_string(), kind: EntryKind::Directory, has_marker: false }
}

fn dir_with_marker(name: &str) -> FsEntry {
    FsEntry { name: name.to_string(), kind: EntryKind::Directory, has_marker: true }
}

fn file(name: &str) -> FsEntry {
    FsEntry { name: name.to_string(), kind: EntryKind::File, has_marker: false }
}

fn names(v: &[&str]) -> Vec<String> {
    v.iter().map(|s| s.to_string()).collect()
}

#[test]
fn client_scan_filters_reserved_and_strips_extension() {
    let entries = vec![dir("spt"), dir("ssh"), dir("Foo"), dir("Bar"), file("Baz.dll")];
    let out = scan_category(ModCategory::Client, &entries);
    assert_eq!(out.names, names(&["Foo", "Bar", "Baz"]));
    assert!(out.warnings.is_empty());
}

#[test]
fn server_scan_requires_marker_and_warns_once() {
    let entries = vec![dir_with_marker("X"), dir("Y")];
    let out = scan_category(ModCategory::Server, &entries);
    assert_eq!(out.names, names(&["X"]));
    assert_eq!(out.warnings, names(&["Y"]));
}

#[test]
fn missing_target_directories_publish_empty_snapshots() {
    let mut engine = Engine::new();
    engine.set_root("/somewhere".to_string());
    let report = engine.run_active_cycle(CategoryScanResult::Missing, CategoryScanResult::Missing);
    assert!(engine.snapshot(ModCategory::Client).is_empty());
    assert!(engine.snapshot(ModCategory::Server).is_empty());
    assert!(!report.client_failed);
    assert!(!report.server_failed);
    assert!(report.client_warnings.is_empty());
    assert!(report.server_warnings.is_empty());
}

#[test]
fn scan_result_holds_no_duplicate_names() {
    let entries = vec![dir("Foo"), file("Foo.dll"), dir("Foo"), file("Bar.dll"), dir("Bar")];
    let out = scan_category(ModCategory::Client, &entries);
    assert_eq!(out.names, names(&["Foo", "Bar"]));
    for (i, a) in out.names.iter().enumerate() {
        for b in out.names.iter().skip(i + 1) {
            assert_ne!(a, b);
        }
    }
}

#[test]
fn scanning_twice_with_identical_listing_is_idempotent() {
    let entries = vec![dir_with_marker("X"), dir_with_marker("Z"), dir("Y")];
    let first = scan_category(ModCategory::Server, &entries);
    let second = scan_category(ModCategory::Server, &entries);
    assert_eq!(first.names, second.names);
    assert_eq!(first.warnings, second.warnings);
}

#[test]
fn repeated_cycles_publish_stable_snapshots() {
    let mut engine = Engine::new();
    engine.set_root("/somewhere".to_string());
    let listing = || vec![dir("Foo"), file("Baz.dll")];
    let marker = || vec![dir_with_marker("X")];
    engine.run_active_cycle(
        CategoryScanResult::Scanned(listing()),
        CategoryScanResult::Scanned(marker()),
    );
    let client_before = engine.snapshot(ModCategory::Client).clone();
    let server_before = engine.snapshot(ModCategory::Server).clone();
    engine.run_active_cycle(
        CategoryScanResult::Scanned(listing()),
        CategoryScanResult::Scanned(marker()),
    );
    assert_eq!(engine.snapshot(ModCategory::Client), &client_before);
    assert_eq!(engine.snapshot(ModCategory::Server), &server_before);
}

#[test]
fn failed_scan_keeps_prior_snapshot_and_spares_the_other_category() {
    let mut engine = Engine::new();
    engine.set_root("/somewhere".to_string());
    engine.run_active_cycle(
        CategoryScanResult::Scanned(vec![dir("Foo")]),
        CategoryScanResult::Scanned(vec![dir_with_marker("X")]),
    );
    let report = engine.run_active_cycle(
        CategoryScanResult::Failed,
        CategoryScanResult::Scanned(vec![dir_with_marker("X"), dir_with_marker("Z")]),
    );
    assert!(report.client_failed);
    assert!(!report.server_failed);
    assert_eq!(engine.snapshot(ModCategory::Client), &names(&["Foo"]));
    assert_eq!(engine.snapshot(ModCategory::Server), &names(&["X", "Z"]));
}

#[test]
fn clearing_the_root_empties_both_snapshots_on_the_next_cycle() {
    let mut engine = Engine::new();
    engine.set_root("/somewhere".to_string());
    engine.run_active_cycle(
        CategoryScanResult::Scanned(vec![dir("Foo")]),
        CategoryScanResult::Scanned(vec![dir_with_marker("X")]),
    );
    assert!(!engine.snapshot(ModCategory::Client).is_empty());
    engine.clear_root();
    assert!(engine.root().is_none());
    engine.idle_cycle();
    assert!(engine.snapshot(ModCategory::Client).is_empty());
    assert!(engine.snapshot(ModCategory::Server).is_empty());
}

#[test]
fn fresh_engine_is_idle_and_empty() {
    let engine = Engine::new();
    assert!(engine.root().is_none());
    assert!(engine.snapshot(ModCategory::Client).is_empty());
    assert!(engine.snapshot(ModCategory::Server).is_empty());
}

#[test]
fn set_root_overwrites_the_previous_choice() {
    let mut engine = Engine::new();
    engine.set_root("/first".to_string());
    assert_eq!(engine.root().as_deref(), Some("/first"));
    engine.set_root("/second".to_string());
    assert_eq!(engine.root().as_deref(), Some("/second"));
}

#[test]
fn classification_decisions_for_client_entries() {
    assert_eq!(
        classify(ModCategory::Client, &dir("spt")),
        Classification::Skip
    );
    assert_eq!(
        classify(ModCategory::Client, &dir("ssh")),
        Classification::Skip
    );
    assert_eq!(
        classify(ModCategory::Client, &dir("Spt")),
        Classification::Include("Spt".to_string())
    );
    assert_eq!(
        classify(ModCategory::Client, &file("Baz.dll")),
        Classification::Include("Baz".to_string())
    );
    assert_eq!(
        classify(ModCategory::Client, &file("readme.txt")),
        Classification::Skip
    );
    assert_eq!(
        classify(ModCategory::Client, &file("Baz.DLL")),
        Classification::Skip
    );
    let other = FsEntry { name: "link".to_string(), kind: EntryKind::Other, has_marker: false };
    assert_eq!(classify(ModCategory::Client, &other), Classification::Skip);
}

#[test]
fn classification_decisions_for_server_entries() {
    assert_eq!(
        classify(ModCategory::Server, &dir_with_marker("X")),
        Classification::Include("X".to_string())
    );
    assert_eq!(
        classify(ModCategory::Server, &dir("Y")),
        Classification::SkipMissingMarker
    );
    assert_eq!(
        classify(ModCategory::Server, &file("loose.json")),
        Classification::Skip
    );
}

#[test]
fn library_extension_is_stripped_only_as_a_suffix() {
    assert_eq!(
        classify(ModCategory::Client, &file(".dll")),
        Classification::Include(String::new())
    );
    assert_eq!(
        classify(ModCategory::Client, &file("dll")),
        Classification::Skip
    );
    assert_eq!(
        classify(ModCategory::Client, &file("a.dll.bak")),
        Classification::Skip
    );
    assert_eq!(
        classify(ModCategory::Client, &file("a.dll.dll")),
        Classification::Include("a.dll".to_string())
    );
}

#[test]
fn empty_listing_scans_to_empty_result() {
    let out_client = scan_category(ModCategory::Client, &Vec::new());
    let out_server = scan_category(ModCategory::Server, &Vec::new());
    assert!(out_client.names.is_empty());
    assert!(out_client.warnings.is_empty());
    assert!(out_server.names.is_empty());
    assert!(out_server.warnings.is_empty());
}

#[test]
fn warnings_are_not_deduplicated() {
    let entries = vec![dir("Y"), dir_with_marker("X"), dir("Y")];
    let out = scan_category(ModCategory::Server, &entries);
    assert_eq!(out.names, names(&["X"]));
    assert_eq!(out.warnings, names(&["Y", "Y"]));
}

#[test]
fn fixed_on_disk_contract() {
    assert_eq!(category_subdirectory(ModCategory::Client), "BepInEx/plugins");
    assert_eq!(category_subdirectory(ModCategory::Server), "user/mods");
    assert_eq!(marker_file_name(), "package.json");
}
