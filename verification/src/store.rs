//! The store: the directory in which the installed extensions live.
//!
//! The directory itself is walked by the caller. What the walk finds comes
//! here as a sequence of entries, in the order of the walk, and the rules say
//! which of them are extensions and under which names they are shown.

use crate::error::Error;
use crate::naming::{
    display_name, extension_name, extension_of, is_managed, lemma_display_name_determines_filename,
    lemma_display_name_of_managed_filename, lemma_managed_filename_is_managed, managed_filename,
    prefix,
};
use crate::text::text_views;
use vstd::prelude::*;

verus! {

/// One entry that the walk through the store has met.
#[derive(Debug)]
pub struct Entry {
    /// The last component of the entry's path.
    pub file_name: String,
    /// Whether the file system marks the entry as executable.
    pub executable: bool,
}

/// An entry as mathematical values.
pub struct EntryView {
    pub file_name: Seq<char>,
    pub executable: bool,
}

impl View for Entry {
    type V = EntryView;

    open spec fn view(&self) -> EntryView {
        EntryView { file_name: self.file_name@, executable: self.executable }
    }
}

/// The entries of a walk as mathematical values.
pub open spec fn entry_views(entries: Seq<Entry>) -> Seq<EntryView> {
    entries.map_values(|entry: Entry| entry@)
}

/// The name under which an entry is shown: the display name of its file
/// name, if the entry is executable and the file name is managed.
pub open spec fn listed_name(entry: EntryView, suffix: Seq<char>) -> Option<Seq<char>> {
    if entry.executable {
        extension_of(entry.file_name, suffix)
    } else {
        None
    }
}

/// The names shown for a walk: those of its entries that are extensions, in
/// the order of the walk.
pub open spec fn listed(entries: Seq<EntryView>, suffix: Seq<char>) -> Seq<Seq<char>> {
    entries.filter_map(|entry: EntryView| listed_name(entry, suffix))
}

/// The name under which `entry` is shown, or `None` where it is no
/// extension.
pub fn listed_name_of(entry: &Entry, suffix: &str) -> (name: Option<String>)
    ensures
        match name {
            Some(n) => listed_name(entry@, suffix@) == Some(n@),
            None => listed_name(entry@, suffix@) is None,
        },
{
    if entry.executable {
        extension_name(entry.file_name.as_str(), suffix)
    } else {
        None
    }
}

/// The names of the installed extensions, from the entries of a walk through
/// the store.
pub fn list(entries: &Vec<Entry>, suffix: &str) -> (names: Vec<String>)
    ensures
        text_views(names@) == listed(entry_views(entries@), suffix@),
{
    let mut names: Vec<String> = Vec::new();
    let ghost shown = |entry: EntryView| listed_name(entry, suffix@);
    for i in 0..entries.len()
        invariant
            shown == |entry: EntryView| listed_name(entry, suffix@),
            text_views(names@) == entry_views(entries@).take(i as int).filter_map(shown),
    {
        proof {
            entry_views(entries@).lemma_filter_map_take_succ(shown, i as int);
        }
        let ghost before = names@;
        match listed_name_of(&entries[i], suffix) {
            Some(name) => {
                names.push(name);
                assert(text_views(names@) =~= text_views(before).push(name@));
            },
            None => {},
        }
    }
    assert(entry_views(entries@).take(entries@.len() as int) =~= entry_views(entries@));
    names
}

/// What became of the attempt to delete an extension's file.
#[derive(Clone, Copy, Debug, PartialEq, Eq, Structural)]
pub enum Removal {
    /// The file was deleted.
    Removed,
    /// There was no such file.
    Missing,
    /// The file system refused for another reason.
    Refused,
}

/// The result of uninstalling, from what became of the deletion.
pub open spec fn uninstall_result(removal: Removal) -> Result<(), Error> {
    match removal {
        Removal::Removed => Ok(()),
        Removal::Missing => Err(Error::NotFound),
        Removal::Refused => Err(Error::IoFailure),
    }
}

/// The result of uninstalling, from what became of the deletion: success
/// where the file was deleted, `NotFound` where there was none, `IoFailure`
/// for any other refusal.
pub fn conclude_uninstall(removal: Removal) -> (result: Result<(), Error>)
    ensures
        result == uninstall_result(removal),
{
    match removal {
        Removal::Removed => Ok(()),
        Removal::Missing => Err(Error::NotFound),
        Removal::Refused => Err(Error::IoFailure),
    }
}

/// Every name that is shown comes from an entry that is executable and whose
/// file name is managed, and is the display name of that file name: what lies
/// between the one prefix and the one suffix.
pub proof fn lemma_listed_names_are_extensions(
    entries: Seq<EntryView>,
    suffix: Seq<char>,
    name: Seq<char>,
)
    requires
        listed(entries, suffix).contains(name),
    ensures
        exists|j: int|
            0 <= j < entries.len() && (#[trigger] entries[j]).executable && is_managed(
                entries[j].file_name,
                suffix,
            ) && display_name(entries[j].file_name, suffix) == name,
{
    let shown = |entry: EntryView| listed_name(entry, suffix);
    entries.lemma_filter_map_contains(shown, name);
    let entry = choose|entry: EntryView| #[trigger]
        entries.contains(entry) && shown(entry) == Some(name);
    let j = choose|j: int| 0 <= j < entries.len() && entries[j] == entry;
    assert(entries[j].executable);
}

/// An entry that is not executable, or whose file name is not managed,
/// adds nothing to the list.
pub proof fn lemma_other_entries_are_not_listed(
    entries: Seq<EntryView>,
    entry: EntryView,
    suffix: Seq<char>,
)
    requires
        !entry.executable || !is_managed(entry.file_name, suffix),
    ensures
        listed(entries.push(entry), suffix) == listed(entries, suffix),
{
    assert(entries.push(entry).drop_last() =~= entries);
}

/// Once the file that uninstalling `name` addresses is met nowhere in the
/// walk, `name` is no longer shown. It holds of every name that does not
/// begin with the prefix.
pub proof fn lemma_uninstalled_is_not_listed(
    entries: Seq<EntryView>,
    name: Seq<char>,
    suffix: Seq<char>,
)
    requires
        !prefix().is_prefix_of(name + suffix),
        forall|j: int|
            0 <= j < entries.len() ==> (#[trigger] entries[j]).file_name != managed_filename(
                name,
                suffix,
            ),
    ensures
        !listed(entries, suffix).contains(name),
{
    if listed(entries, suffix).contains(name) {
        lemma_listed_names_are_extensions(entries, suffix, name);
        let j = choose|j: int|
            0 <= j < entries.len() && (#[trigger] entries[j]).executable && is_managed(
                entries[j].file_name,
                suffix,
            ) && display_name(entries[j].file_name, suffix) == name;
        lemma_display_name_determines_filename(entries[j].file_name, name, suffix);
    }
}

/// An entry that is an extension is shown, wherever it stands in the walk.
pub proof fn lemma_extension_is_listed(entries: Seq<EntryView>, suffix: Seq<char>, j: int)
    requires
        0 <= j < entries.len(),
        entries[j].executable,
        is_managed(entries[j].file_name, suffix),
    ensures
        listed(entries, suffix).contains(display_name(entries[j].file_name, suffix)),
    decreases entries.len(),
{
    let shown = |entry: EntryView| listed_name(entry, suffix);
    let name = display_name(entries[j].file_name, suffix);
    let rest = entries.drop_last();
    if j == entries.len() - 1 {
        let names = rest.filter_map(shown) + seq![name];
        assert(listed(entries, suffix) == names);
        assert(names[names.len() - 1] == name);
    } else {
        lemma_extension_is_listed(rest, suffix, j);
        let before = rest.filter_map(shown);
        let k = choose|k: int| 0 <= k < before.len() && before[k] == name;
        match shown(entries.last()) {
            Some(last) => {
                assert((before + seq![last])[k] == name);
            },
            None => {},
        }
    }
}

/// Once the file that installing `name` copies into the store is met in the
/// walk, and is executable, `name` is shown. It holds of every name that does
/// not begin with the prefix.
pub proof fn lemma_installed_is_listed(
    entries: Seq<EntryView>,
    name: Seq<char>,
    suffix: Seq<char>,
    j: int,
)
    requires
        !prefix().is_prefix_of(name + suffix),
        0 <= j < entries.len(),
        entries[j].executable,
        entries[j].file_name == managed_filename(name, suffix),
    ensures
        listed(entries, suffix).contains(name),
{
    lemma_managed_filename_is_managed(name, suffix);
    lemma_display_name_of_managed_filename(name, suffix);
    lemma_extension_is_listed(entries, suffix, j);
}

} // verus!
