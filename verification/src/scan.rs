//! One category scan: classify every immediate child of the target
//! directory, collect the accepted names in discovery order, drop duplicate
//! names (keeping each name's first occurrence), and collect one warning
//! per server-mod candidate that lacks its marker file.

use vstd::prelude::*;

use crate::entry::{
    classify, spec_classify, Classification, ClassificationView, FsEntry, FsEntryView, ModCategory,
};

verus! {

/// The views of a sequence of directory entries, element by element.
pub open spec fn entry_views(entries: Seq<FsEntry>) -> Seq<FsEntryView> {
    entries.map_values(|e: FsEntry| e@)
}

/// The names the classification rule accepts, in discovery order, before
/// deduplication: one name per entry classified `Include`.
pub open spec fn spec_included_names(category: ModCategory, entries: Seq<FsEntryView>) -> Seq<
    Seq<char>,
>
    decreases entries.len(),
{
    if entries.len() == 0 {
        Seq::empty()
    } else {
        let prefix = spec_included_names(category, entries.drop_last());
        match spec_classify(category, entries.last()) {
            ClassificationView::Include(name) => prefix.push(name),
            ClassificationView::Skip => prefix,
            ClassificationView::SkipMissingMarker => prefix,
        }
    }
}

/// The names of the entries classified `SkipMissingMarker`, in discovery
/// order: one warning is owed per such candidate, so this sequence is not
/// deduplicated.
pub open spec fn spec_warning_names(category: ModCategory, entries: Seq<FsEntryView>) -> Seq<
    Seq<char>,
>
    decreases entries.len(),
{
    if entries.len() == 0 {
        Seq::empty()
    } else {
        let prefix = spec_warning_names(category, entries.drop_last());
        match spec_classify(category, entries.last()) {
            ClassificationView::Include(name) => prefix,
            ClassificationView::Skip => prefix,
            ClassificationView::SkipMissingMarker => prefix.push(entries.last().name),
        }
    }
}

/// The sequence with every repeated element removed: each element keeps its
/// first occurrence and its position relative to the other survivors.
pub open spec fn spec_dedup(names: Seq<Seq<char>>) -> Seq<Seq<char>>
    decreases names.len(),
{
    if names.len() == 0 {
        Seq::empty()
    } else {
        let prefix = spec_dedup(names.drop_last());
        if prefix.contains(names.last()) {
            prefix
        } else {
            prefix.push(names.last())
        }
    }
}

/// The published result of one category scan: the accepted names in
/// discovery order with duplicates removed.
pub open spec fn spec_scan_names(category: ModCategory, entries: Seq<FsEntryView>) -> Seq<
    Seq<char>,
> {
    spec_dedup(spec_included_names(category, entries))
}

/// What one category scan produces: the names to publish as the category's
/// snapshot, and the names to report with one warning each.
pub struct ScanOutput {
    pub names: Vec<String>,
    pub warnings: Vec<String>,
}

/// Whether one of the collected names equals the candidate.
fn contains_name(names: &Vec<String>, candidate: &String) -> (r: bool)
    ensures
        r == names.deep_view().contains(candidate@),
{
    let n = names.len();
    let mut j: usize = 0;
    while j < n
        invariant
            n == names.len(),
            j <= n,
            forall|k: int| 0 <= k < j ==> names.deep_view()[k] != candidate@,
        decreases n - j,
    {
        if names[j] == *candidate {
            assert(names.deep_view()[j as int] == candidate@);
            return true;
        }
        j += 1;
    }
    false
}

/// Scan one category: classify the given directory entries, keep the first
/// occurrence of every accepted name, and collect the warned-about names in
/// order. Agrees exactly with [`spec_scan_names`] and
/// [`spec_warning_names`].
pub fn scan_category(category: ModCategory, entries: &Vec<FsEntry>) -> (out: ScanOutput)
    ensures
        out.names.deep_view() == spec_scan_names(category, entry_views(entries@)),
        out.warnings.deep_view() == spec_warning_names(category, entry_views(entries@)),
{
    let ghost vs = entry_views(entries@);
    let mut names: Vec<String> = Vec::new();
    let mut warnings: Vec<String> = Vec::new();
    let n = entries.len();
    let mut i: usize = 0;
    proof {
        assert(names.deep_view() =~= spec_dedup(spec_included_names(category, vs.take(0))));
        assert(warnings.deep_view() =~= spec_warning_names(category, vs.take(0)));
    }
    while i < n
        invariant
            n == entries.len(),
            i <= n,
            vs == entry_views(entries@),
            names.deep_view() == spec_dedup(spec_included_names(category, vs.take(i as int))),
            warnings.deep_view() == spec_warning_names(category, vs.take(i as int)),
        decreases n - i,
    {
        proof {
            assert(vs.take(i + 1).drop_last() =~= vs.take(i as int));
            assert(vs.take(i + 1).last() == entries@[i as int]@);
        }
        match classify(category, &entries[i]) {
            Classification::Include(name) => {
                proof {
                    let inc0 = spec_included_names(category, vs.take(i as int));
                    let inc1 = spec_included_names(category, vs.take(i + 1));
                    assert(inc1 == inc0.push(name@));
                    assert(inc1.drop_last() =~= inc0);
                    assert(inc1.last() == name@);
                }
                if !contains_name(&names, &name) {
                    let ghost before = names.deep_view();
                    names.push(name);
                    proof {
                        assert(names.deep_view() =~= before.push(name@));
                    }
                }
            },
            Classification::Skip => {},
            Classification::SkipMissingMarker => {
                let ghost before = warnings.deep_view();
                warnings.push(entries[i].name.clone());
                proof {
                    assert(warnings.deep_view() =~= before.push(entries@[i as int].name@));
                }
            },
        }
        i += 1;
    }
    proof {
        assert(vs.take(n as int) =~= vs);
    }
    ScanOutput { names, warnings }
}

}
