//! Laws the scan and the engine obey, proved once and for all inputs:
//! deduplication is faithful (no duplicates survive, no name is lost or
//! invented), an empty listing publishes an empty snapshot with no
//! warnings, and re-scanning an unchanged listing publishes a stable
//! snapshot.

use vstd::prelude::*;

use crate::engine::Engine;
use crate::entry::{FsEntryView, ModCategory};
use crate::scan::{
    spec_dedup, spec_included_names, spec_scan_names, spec_warning_names,
};

verus! {

broadcast use vstd::seq_lib::lemma_seq_contains_after_push, vstd::seq_lib::lemma_seq_contains;

/// Deduplication keeps exactly the members of its input: a name stands in
/// the deduplicated sequence if and only if it stands in the original.
pub proof fn lemma_dedup_same_members(names: Seq<Seq<char>>)
    ensures
        forall|x: Seq<char>| spec_dedup(names).contains(x) <==> names.contains(x),
    decreases names.len(),
{
    if names.len() == 0 {
    } else {
        let prefix = names.drop_last();
        lemma_dedup_same_members(prefix);
        assert forall|x: Seq<char>| spec_dedup(names).contains(x) <==> names.contains(x) by {
            assert(names =~= prefix.push(names.last()));
        }
    }
}

/// Deduplication leaves no duplicates: any two distinct positions of the
/// deduplicated sequence hold distinct names.
pub proof fn lemma_dedup_duplicate_free(names: Seq<Seq<char>>)
    ensures
        forall|i: int, j: int|
            0 <= i < j < spec_dedup(names).len() ==> spec_dedup(names)[i] != spec_dedup(names)[j],
    decreases names.len(),
{
    if names.len() == 0 {
    } else {
        let prefix = names.drop_last();
        lemma_dedup_duplicate_free(prefix);
        let d0 = spec_dedup(prefix);
        let d1 = spec_dedup(names);
        if d0.contains(names.last()) {
        } else {
            assert forall|i: int, j: int| 0 <= i < j < d1.len() implies d1[i] != d1[j] by {
                if j == d1.len() - 1 {
                    assert(d0.contains(d0[i]));
                }
            }
        }
    }
}

/// Law: a category's published scan result holds no duplicate mod name,
/// and holds exactly the names the classification rule accepted from the
/// directory listing — none lost to deduplication, none invented by it.
pub proof fn lemma_scan_duplicate_free(category: ModCategory, entries: Seq<FsEntryView>)
    ensures
        forall|i: int, j: int|
            0 <= i < j < spec_scan_names(category, entries).len() ==> spec_scan_names(
                category,
                entries,
            )[i] != spec_scan_names(category, entries)[j],
        forall|x: Seq<char>|
            spec_scan_names(category, entries).contains(x) <==> spec_included_names(
                category,
                entries,
            ).contains(x),
{
    lemma_dedup_duplicate_free(spec_included_names(category, entries));
    lemma_dedup_same_members(spec_included_names(category, entries));
}

/// Law: a category whose target directory holds nothing (or does not
/// exist, in which case the poll loop reports an empty listing) publishes
/// an empty snapshot and owes no warning — absence is not an error.
pub proof fn lemma_scan_of_nothing(category: ModCategory)
    ensures
        spec_scan_names(category, Seq::empty()) == Seq::<Seq<char>>::empty(),
        spec_warning_names(category, Seq::empty()) == Seq::<Seq<char>>::empty(),
{
}

/// Law: polling is idempotent. The snapshot a scan publishes is a function
/// of the directory listing alone, so two engines (or one engine on two
/// consecutive cycles) that scanned the same listing hold the same
/// snapshot for that category.
pub proof fn lemma_poll_stable(
    first: Engine,
    second: Engine,
    category: ModCategory,
    entries: Seq<FsEntryView>,
)
    requires
        first.spec_snapshot(category) == spec_scan_names(category, entries),
        second.spec_snapshot(category) == spec_scan_names(category, entries),
    ensures
        first.spec_snapshot(category) == second.spec_snapshot(category),
        forall|x: Seq<char>|
            first.spec_snapshot(category).contains(x) <==> second.spec_snapshot(
                category,
            ).contains(x),
{
}

}
