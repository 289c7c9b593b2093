//! The discovery engine: one object owning the root path and the two
//! category snapshots, with the state transitions one poll cycle performs.
//!
//! The poll loop around this engine reads the root path once per cycle.
//! While the root path is unset the engine is idle: no directory is
//! scanned and both snapshots are empty (so clearing the root path empties
//! both snapshots on the next cycle). While it is set, each cycle
//! enumerates both target directories and hands the outcome per category
//! to the engine: a successful enumeration replaces that category's
//! snapshot wholly, a missing target directory publishes an empty
//! snapshot, and an enumeration failure leaves the previous snapshot
//! untouched and never disturbs the other category.

use vstd::prelude::*;

use crate::entry::{FsEntry, FsEntryView, ModCategory};
use crate::scan::{entry_views, scan_category, spec_scan_names, spec_warning_names};

verus! {

/// What enumerating one category's target directory came to, as the poll
/// loop reports it: the directory's immediate children, or the fact that
/// the target directory does not exist (not an error: the category has no
/// mods), or an enumeration failure (an error to report; the previous
/// snapshot stays).
pub enum CategoryScanResult {
    Scanned(Vec<FsEntry>),
    Missing,
    Failed,
}

/// What one active cycle produced for the caller to report: the warned
/// names per category (one warning each), and whether each category's
/// enumeration failed and left its previous snapshot in place.
pub struct CycleReport {
    pub client_warnings: Vec<String>,
    pub server_warnings: Vec<String>,
    pub client_failed: bool,
    pub server_failed: bool,
}

/// The discovery engine's whole state: the user-chosen root path (absent
/// until the user picks one) and the most recently published snapshot per
/// category, each a duplicate-free sequence of mod names.
pub struct Engine {
    root: Option<String>,
    client_mods: Vec<String>,
    server_mods: Vec<String>,
}

impl Engine {
    /// The root path as the contracts speak of it: absent, or the chosen
    /// path's characters.
    pub closed spec fn spec_root(&self) -> Option<Seq<char>> {
        self.root.deep_view()
    }

    /// The published snapshot of one category as the contracts speak of
    /// it: the sequence of mod names, each a sequence of characters.
    pub closed spec fn spec_snapshot(&self, category: ModCategory) -> Seq<Seq<char>> {
        match category {
            ModCategory::Client => self.client_mods.deep_view(),
            ModCategory::Server => self.server_mods.deep_view(),
        }
    }

    /// A fresh engine: no root path chosen, both snapshots empty.
    pub fn new() -> (engine: Engine)
        ensures
            engine.spec_root() is None,
            forall|c: ModCategory| engine.spec_snapshot(c) == Seq::<Seq<char>>::empty(),
    {
        let engine = Engine { root: None, client_mods: Vec::new(), server_mods: Vec::new() };
        proof {
            assert forall|c: ModCategory| engine.spec_snapshot(c) == Seq::<Seq<char>>::empty() by {
                assert(engine.spec_snapshot(c) =~= Seq::<Seq<char>>::empty());
            }
        }
        engine
    }

    /// Set the root path, overwriting any previous choice. Only the root
    /// path changes; the snapshots follow on the next cycle.
    pub fn set_root(&mut self, path: String)
        ensures
            final(self).spec_root() == Some(path@),
            forall|c: ModCategory|
                final(self).spec_snapshot(c) == old(self).spec_snapshot(c),
    {
        self.root = Some(path);
    }

    /// Unset the root path. The engine falls back to idle: the next cycle
    /// publishes empty snapshots for both categories.
    pub fn clear_root(&mut self)
        ensures
            final(self).spec_root() is None,
            forall|c: ModCategory|
                final(self).spec_snapshot(c) == old(self).spec_snapshot(c),
    {
        self.root = None;
    }

    /// The current root path, for the poll loop to read once per cycle.
    pub fn root(&self) -> (r: &Option<String>)
        ensures
            r.deep_view() == self.spec_root(),
    {
        &self.root
    }

    /// The query surface: the most recently published snapshot of one
    /// category. Always succeeds; before any scan it is the empty
    /// sequence. No filesystem work happens here.
    pub fn snapshot(&self, category: ModCategory) -> (names: &Vec<String>)
        ensures
            names.deep_view() == self.spec_snapshot(category),
    {
        match category {
            ModCategory::Client => &self.client_mods,
            ModCategory::Server => &self.server_mods,
        }
    }

    /// Replace one category's snapshot.
    fn store_snapshot(&mut self, category: ModCategory, names: Vec<String>)
        ensures
            final(self).spec_snapshot(category) == names.deep_view(),
            forall|c: ModCategory|
                c != category ==> final(self).spec_snapshot(c) == old(self).spec_snapshot(c),
            final(self).spec_root() == old(self).spec_root(),
    {
        match category {
            ModCategory::Client => {
                self.client_mods = names;
            },
            ModCategory::Server => {
                self.server_mods = names;
            },
        }
    }

    /// One idle cycle: the root path is unset, so no directory is scanned
    /// and both snapshots are published empty. This resolves the
    /// round-trip question explicitly: unsetting the root path empties
    /// both snapshots on the next cycle.
    pub fn idle_cycle(&mut self)
        ensures
            forall|c: ModCategory|
                final(self).spec_snapshot(c) == Seq::<Seq<char>>::empty(),
            final(self).spec_root() == old(self).spec_root(),
    {
        self.client_mods = Vec::new();
        self.server_mods = Vec::new();
        proof {
            assert forall|c: ModCategory|
                final(self).spec_snapshot(c) == Seq::<Seq<char>>::empty() by {
                assert(final(self).spec_snapshot(c) =~= Seq::<Seq<char>>::empty());
            }
        }
    }

    /// Apply one category's enumeration outcome to the engine and return
    /// the names owed a warning. A scanned listing replaces the snapshot
    /// with the scan result; a missing target directory publishes an
    /// empty snapshot; a failure changes nothing. The other category's
    /// snapshot and the root path are never touched.
    pub fn apply_category_scan(
        &mut self,
        category: ModCategory,
        result: CategoryScanResult,
    ) -> (warnings: Vec<String>)
        ensures
            final(self).spec_root() == old(self).spec_root(),
            forall|c: ModCategory|
                c != category ==> final(self).spec_snapshot(c) == old(self).spec_snapshot(c),
            result matches CategoryScanResult::Scanned(entries) ==> {
                &&& final(self).spec_snapshot(category) == spec_scan_names(
                    category,
                    entry_views(entries@),
                )
                &&& warnings.deep_view() == spec_warning_names(category, entry_views(entries@))
            },
            result is Missing ==> {
                &&& final(self).spec_snapshot(category) == Seq::<Seq<char>>::empty()
                &&& warnings.deep_view() == Seq::<Seq<char>>::empty()
            },
            result is Failed ==> {
                &&& final(self).spec_snapshot(category) == old(self).spec_snapshot(category)
                &&& warnings.deep_view() == Seq::<Seq<char>>::empty()
            },
    {
        match result {
            CategoryScanResult::Scanned(entries) => {
                let out = scan_category(category, &entries);
                self.store_snapshot(category, out.names);
                out.warnings
            },
            CategoryScanResult::Missing => {
                self.store_snapshot(category, Vec::new());
                let warnings: Vec<String> = Vec::new();
                proof {
                    assert(warnings.deep_view() =~= Seq::<Seq<char>>::empty());
                }
                warnings
            },
            CategoryScanResult::Failed => {
                let warnings: Vec<String> = Vec::new();
                proof {
                    assert(warnings.deep_view() =~= Seq::<Seq<char>>::empty());
                }
                warnings
            },
        }
    }

    /// One active cycle: the root path is set, and the poll loop has
    /// enumerated both target directories. The client outcome is applied
    /// first, then the server outcome, each independently; one category's
    /// failure never disturbs the other's snapshot.
    pub fn run_active_cycle(
        &mut self,
        client: CategoryScanResult,
        server: CategoryScanResult,
    ) -> (report: CycleReport)
        ensures
            final(self).spec_root() == old(self).spec_root(),
            client matches CategoryScanResult::Scanned(entries) ==> {
                &&& final(self).spec_snapshot(ModCategory::Client) == spec_scan_names(
                    ModCategory::Client,
                    entry_views(entries@),
                )
                &&& report.client_warnings.deep_view() == spec_warning_names(
                    ModCategory::Client,
                    entry_views(entries@),
                )
            },
            client is Missing ==> final(self).spec_snapshot(ModCategory::Client) == Seq::<
                Seq<char>,
            >::empty(),
            client is Failed ==> final(self).spec_snapshot(ModCategory::Client) == old(
                self,
            ).spec_snapshot(ModCategory::Client),
            server matches CategoryScanResult::Scanned(entries) ==> {
                &&& final(self).spec_snapshot(ModCategory::Server) == spec_scan_names(
                    ModCategory::Server,
                    entry_views(entries@),
                )
                &&& report.server_warnings.deep_view() == spec_warning_names(
                    ModCategory::Server,
                    entry_views(entries@),
                )
            },
            server is Missing ==> final(self).spec_snapshot(ModCategory::Server) == Seq::<
                Seq<char>,
            >::empty(),
            server is Failed ==> final(self).spec_snapshot(ModCategory::Server) == old(
                self,
            ).spec_snapshot(ModCategory::Server),
            report.client_failed == (client is Failed),
            report.server_failed == (server is Failed),
    {
        let client_failed = matches!(client, CategoryScanResult::Failed);
        let server_failed = matches!(server, CategoryScanResult::Failed);
        let client_warnings = self.apply_category_scan(ModCategory::Client, client);
        let server_warnings = self.apply_category_scan(ModCategory::Server, server);
        CycleReport { client_warnings, server_warnings, client_failed, server_failed }
    }
}

}
