//! The two mod categories, the shape of one directory entry as the scanner
//! sees it, and the per-category classification rule for a single entry.

use vstd::prelude::*;

verus! {

/// One of the two kinds of mods, each bound to a fixed subdirectory under
/// the root path and to its own classification rule.
#[derive(Clone, Copy, PartialEq, Eq, Structural, Debug)]
pub enum ModCategory {
    Client,
    Server,
}

/// What kind of filesystem object a directory entry is. `Other` covers
/// everything that is neither a directory nor a regular file (symlinks,
/// devices, entries whose type could not be determined).
#[derive(Clone, Copy, PartialEq, Eq, Structural, Debug)]
pub enum EntryKind {
    Directory,
    File,
    Other,
}

/// One immediate child of a category's target directory, reduced to the
/// facts the classification rule reads: its name, its kind, and whether a
/// directory entry contains the server-mod marker file at its top level.
/// `has_marker` is meaningful only for directories; the rule ignores it
/// otherwise.
#[derive(Debug)]
pub struct FsEntry {
    pub name: String,
    pub kind: EntryKind,
    pub has_marker: bool,
}

/// Mathematical image of an [`FsEntry`]: the name as a sequence of
/// characters, the kind and the marker flag as they are.
pub struct FsEntryView {
    pub name: Seq<char>,
    pub kind: EntryKind,
    pub has_marker: bool,
}

impl View for FsEntry {
    type V = FsEntryView;

    open spec fn view(&self) -> FsEntryView {
        FsEntryView { name: self.name@, kind: self.kind, has_marker: self.has_marker }
    }
}

/// The decision the scanner takes for one directory entry: report it under
/// the given name, skip it silently, or skip it and emit one warning (a
/// server-mod candidate directory that lacks the marker file).
#[derive(PartialEq, Debug)]
pub enum Classification {
    Include(String),
    Skip,
    SkipMissingMarker,
}

/// Mathematical image of a [`Classification`].
pub enum ClassificationView {
    Include(Seq<char>),
    Skip,
    SkipMissingMarker,
}

impl View for Classification {
    type V = ClassificationView;

    open spec fn view(&self) -> ClassificationView {
        match self {
            Classification::Include(name) => ClassificationView::Include(name@),
            Classification::Skip => ClassificationView::Skip,
            Classification::SkipMissingMarker => ClassificationView::SkipMissingMarker,
        }
    }
}

/// Reserved directory names under the client plugins folder that must never
/// be reported as mods (case-sensitive exact match).
pub open spec fn spec_client_excluded(name: Seq<char>) -> bool {
    name == "spt"@ || name == "ssh"@
}

/// Whether a file name ends with the client library extension `.dll`.
pub open spec fn spec_has_library_suffix(name: Seq<char>) -> bool {
    name.len() >= 4 && name.subrange(name.len() - 4, name.len() as int) == ".dll"@
}

/// The file name with the trailing library extension removed.
pub open spec fn spec_strip_library_suffix(name: Seq<char>) -> Seq<char> {
    name.subrange(0, name.len() - 4)
}

/// The classification rule: what the scanner decides for one entry of the
/// given category's target directory.
///
/// Client: a directory is included under its own name unless it is one of
/// the reserved names; a regular file is included under its name with the
/// library extension stripped, provided it carries that extension; anything
/// else is skipped silently. Server: a directory with the marker file is
/// included under its own name; a directory without it is skipped with a
/// warning; non-directories are skipped silently.
pub open spec fn spec_classify(category: ModCategory, e: FsEntryView) -> ClassificationView {
    match category {
        ModCategory::Client => match e.kind {
            EntryKind::Directory => if spec_client_excluded(e.name) {
                ClassificationView::Skip
            } else {
                ClassificationView::Include(e.name)
            },
            EntryKind::File => if spec_has_library_suffix(e.name) {
                ClassificationView::Include(spec_strip_library_suffix(e.name))
            } else {
                ClassificationView::Skip
            },
            EntryKind::Other => ClassificationView::Skip,
        },
        ModCategory::Server => match e.kind {
            EntryKind::Directory => if e.has_marker {
                ClassificationView::Include(e.name)
            } else {
                ClassificationView::SkipMissingMarker
            },
            EntryKind::File => ClassificationView::Skip,
            EntryKind::Other => ClassificationView::Skip,
        },
    }
}

/// The fixed subdirectory under the root path that holds one category's
/// mods.
pub open spec fn spec_category_subdirectory(category: ModCategory) -> Seq<char> {
    match category {
        ModCategory::Client => "BepInEx/plugins"@,
        ModCategory::Server => "user/mods"@,
    }
}

/// The fixed subdirectory under the root path that holds one category's
/// mods, for the poll loop to join onto the root path.
pub fn category_subdirectory(category: ModCategory) -> (s: String)
    ensures
        s@ == spec_category_subdirectory(category),
{
    match category {
        ModCategory::Client => "BepInEx/plugins".to_owned(),
        ModCategory::Server => "user/mods".to_owned(),
    }
}

/// The marker file whose presence at a directory's top level qualifies it
/// as a server mod.
pub fn marker_file_name() -> (s: String)
    ensures
        s@ == "package.json"@,
{
    "package.json".to_owned()
}

/// Whether the name is one of the reserved client directory names.
pub fn is_reserved_client_name(name: &String) -> (r: bool)
    ensures
        r == spec_client_excluded(name@),
{
    let spt: String = "spt".to_owned();
    let ssh: String = "ssh".to_owned();
    *name == spt || *name == ssh
}

/// The name with the library extension removed, if it carries that
/// extension; `None` otherwise.
pub fn strip_library_suffix(name: &String) -> (r: Option<String>)
    ensures
        match r {
            Some(stem) => spec_has_library_suffix(name@) && stem@ == spec_strip_library_suffix(
                name@,
            ),
            None => !spec_has_library_suffix(name@),
        },
{
    proof {
        reveal_strlit(".dll");
    }
    let s = name.as_str();
    let n = s.unicode_len();
    if n < 4 {
        return None;
    }
    let matches_suffix = s.get_char(n - 4) == '.' && s.get_char(n - 3) == 'd' && s.get_char(
        n - 2,
    ) == 'l' && s.get_char(n - 1) == 'l';
    if matches_suffix {
        proof {
            assert(name@.subrange(name@.len() - 4, name@.len() as int) =~= ".dll"@);
        }
        let stem = s.substring_char(0, n - 4).to_owned();
        Some(stem)
    } else {
        proof {
            let tail = name@.subrange(name@.len() - 4, name@.len() as int);
            assert(tail == ".dll"@ ==> tail[0] == '.' && tail[1] == 'd' && tail[2] == 'l'
                && tail[3] == 'l');
        }
        None
    }
}

/// Classify one directory entry for the given category; agrees exactly with
/// [`spec_classify`].
pub fn classify(category: ModCategory, entry: &FsEntry) -> (c: Classification)
    ensures
        c@ == spec_classify(category, entry@),
{
    match category {
        ModCategory::Client => match entry.kind {
            EntryKind::Directory => {
                if is_reserved_client_name(&entry.name) {
                    Classification::Skip
                } else {
                    Classification::Include(entry.name.clone())
                }
            },
            EntryKind::File => {
                match strip_library_suffix(&entry.name) {
                    Some(stem) => Classification::Include(stem),
                    None => Classification::Skip,
                }
            },
            EntryKind::Other => Classification::Skip,
        },
        ModCategory::Server => match entry.kind {
            EntryKind::Directory => {
                if entry.has_marker {
                    Classification::Include(entry.name.clone())
                } else {
                    Classification::SkipMissingMarker
                }
            },
            EntryKind::File => Classification::Skip,
            EntryKind::Other => Classification::Skip,
        },
    }
}

}
