//! Module discovery: which entries of the `pkg/` directory are synced
//! modules, and the stable name each module takes from its file name.
//!
//! A module is a regular file whose name ends in the `.luau` extension with
//! a non-empty stem; the stem (file name without that extension) is the
//! module's name. Everything else — other extensions, subdirectories,
//! entries whose kind could not be determined — is ignored.

use vstd::prelude::*;

verus! {

/// The kind of one directory entry, as reported by the enumeration.
#[derive(Debug, Clone, Copy, PartialEq, Eq)]
pub enum EntryKind {
    /// A regular file.
    File,
    /// A directory.
    Directory,
    /// Some other kind (symlink, device, ...).
    Other,
    /// The per-entry kind lookup itself failed; the entry is skipped
    /// without failing the enumeration.
    Unknown,
}

/// Mathematical view of a [`PkgEntry`].
pub struct PkgEntryView {
    pub file_name: Seq<char>,
    pub kind: EntryKind,
}

/// One enumerated entry of the module directory: its bare file name and
/// its kind.
#[derive(Debug, Clone, PartialEq, Eq)]
pub struct PkgEntry {
    pub file_name: String,
    pub kind: EntryKind,
}

impl View for PkgEntry {
    type V = PkgEntryView;

    open spec fn view(&self) -> PkgEntryView {
        PkgEntryView { file_name: self.file_name@, kind: self.kind }
    }
}

impl DeepView for PkgEntry {
    type V = PkgEntryView;

    open spec fn deep_view(&self) -> PkgEntryView {
        self@
    }
}

/// Whether `f` is the file name of a synced module: it ends in `.luau`
/// and the stem before that extension is non-empty, so the extension is
/// the one after the last dot of the name.
pub open spec fn spec_is_module_file_name(f: Seq<char>) -> bool {
    &&& f.len() >= 6
    &&& f.skip(f.len() - 5) == ".luau"@
}

/// The module name derived from a module file name: the stem before the
/// `.luau` extension.
pub open spec fn spec_module_stem(f: Seq<char>) -> Seq<char> {
    f.take(f.len() - 5)
}

/// Whether one enumerated entry is selected as a module: a regular file
/// with a module file name.
pub open spec fn spec_entry_selected(e: PkgEntryView) -> bool {
    e.kind == EntryKind::File && spec_is_module_file_name(e.file_name)
}

/// The `(module name, file name)` pairs of the selected entries, in
/// enumeration order.
pub open spec fn spec_selected_modules(entries: Seq<PkgEntryView>) -> Seq<(Seq<char>, Seq<char>)>
    decreases entries.len(),
{
    if entries.len() == 0 {
        Seq::empty()
    } else {
        let prefix = spec_selected_modules(entries.drop_last());
        let e = entries.last();
        if spec_entry_selected(e) {
            prefix.push((spec_module_stem(e.file_name), e.file_name))
        } else {
            prefix
        }
    }
}

/// Exact executable test of [`spec_is_module_file_name`].
pub fn is_module_file_name(f: &str) -> (r: bool)
    ensures
        r == spec_is_module_file_name(f@),
{
    proof {
        reveal_strlit(".luau");
    }
    let n = f.unicode_len();
    if n < 6 {
        return false;
    }
    let ok = f.get_char(n - 5) == '.' && f.get_char(n - 4) == 'l' && f.get_char(n - 3) == 'u'
        && f.get_char(n - 2) == 'a' && f.get_char(n - 1) == 'u';
    proof {
        if ok {
            assert(f@.skip(f@.len() - 5) =~= ".luau"@);
        } else {
            assert(f@.skip(f@.len() - 5) != ".luau"@) by {
                if f@.skip(f@.len() - 5) == ".luau"@ {
                    assert(f@.skip(f@.len() - 5)[0] == f@[f@.len() - 5]);
                    assert(f@.skip(f@.len() - 5)[1] == f@[f@.len() - 4]);
                    assert(f@.skip(f@.len() - 5)[2] == f@[f@.len() - 3]);
                    assert(f@.skip(f@.len() - 5)[3] == f@[f@.len() - 2]);
                    assert(f@.skip(f@.len() - 5)[4] == f@[f@.len() - 1]);
                }
            }
        }
    }
    ok
}

/// The stem of a module file name: the file name with `.luau` removed.
pub fn module_stem(f: &str) -> (r: String)
    requires
        spec_is_module_file_name(f@),
    ensures
        r@ == spec_module_stem(f@),
{
    let n = f.unicode_len();
    let r = f.substring_char(0, n - 5).to_owned();
    proof {
        assert(f@.subrange(0, f@.len() - 5) =~= spec_module_stem(f@));
    }
    r
}

/// Filters an enumerated module directory down to its synced modules:
/// regular files named `<stem>.luau`, each paired as
/// `(module name, file name)`, in enumeration order. Entries of any other
/// kind or name — including those whose kind lookup failed — are skipped.
pub fn select_modules(entries: &Vec<PkgEntry>) -> (r: Vec<(String, String)>)
    ensures
        r.deep_view() == spec_selected_modules(entries.deep_view()),
{
    let mut r: Vec<(String, String)> = Vec::new();
    let n = entries.len();
    let mut i: usize = 0;
    while i < n
        invariant
            i <= n,
            n == entries.len(),
            r.deep_view() == spec_selected_modules(entries.deep_view().take(i as int)),
        decreases n - i,
    {
        let e = &entries[i];
        let is_file = match e.kind {
            EntryKind::File => true,
            _ => false,
        };
        if is_file && is_module_file_name(e.file_name.as_str()) {
            let stem = module_stem(e.file_name.as_str());
            r.push((stem, e.file_name.clone()));
        }
        proof {
            assert(entries.deep_view().take(i + 1).drop_last() =~= entries.deep_view().take(
                i as int,
            ));
            assert(entries.deep_view().take(i + 1).last() == entries[i as int]@);
        }
        i = i + 1;
    }
    proof {
        assert(entries.deep_view().take(n as int) =~= entries.deep_view());
    }
    r
}

} // verus!
