//! The naming convention shared by installing, listing and removing.
//!
//! An extension called `foo` lives in the store as the file `just-foo`,
//! followed by the executable suffix of the platform (empty on Unix-like
//! systems, `.exe` on Windows). The suffix is a parameter everywhere, so the
//! rules can be stated and checked for every platform at once.

use crate::text::{chars_of, ends_with, starts_with};
use vstd::prelude::*;
use vstd::string::*;

verus! {

/// The prefix that marks a file of the store as an extension.
pub const JUST_PREFIX: &'static str = "just-";

/// The prefix as a sequence of characters.
pub open spec fn prefix() -> Seq<char> {
    JUST_PREFIX@
}

/// The file name under which the extension `name` is stored: the suffix is
/// appended, and the prefix is put in front unless it is already there.
pub open spec fn managed_filename(name: Seq<char>, suffix: Seq<char>) -> Seq<char> {
    if prefix().is_prefix_of(name + suffix) {
        name + suffix
    } else {
        prefix() + name + suffix
    }
}

/// A file name is managed when it starts with the prefix, ends with the
/// suffix, and the two do not overlap (so that a name, possibly empty, lies
/// between them).
pub open spec fn is_managed(filename: Seq<char>, suffix: Seq<char>) -> bool {
    &&& prefix().len() + suffix.len() <= filename.len()
    &&& prefix().is_prefix_of(filename)
    &&& suffix.is_suffix_of(filename)
}

/// What lies between the prefix and the suffix of a managed file name.
pub open spec fn display_name(filename: Seq<char>, suffix: Seq<char>) -> Seq<char> {
    filename.subrange(prefix().len() as int, filename.len() - suffix.len())
}

/// The display name of a file name, if it is managed.
pub open spec fn extension_of(filename: Seq<char>, suffix: Seq<char>) -> Option<Seq<char>> {
    if is_managed(filename, suffix) {
        Some(display_name(filename, suffix))
    } else {
        None
    }
}

/// The prefix is `just-`: five characters.
pub proof fn lemma_prefix_text()
    ensures
        prefix().len() == 5,
        prefix() == seq!['j', 'u', 's', 't', '-'],
{
    reveal_strlit("just-");
    assert(prefix() =~= seq!['j', 'u', 's', 't', '-']);
}

/// The file name under which the extension `name` is stored.
pub fn to_managed_filename(name: &str, suffix: &str) -> (filename: String)
    ensures
        filename@ == managed_filename(name@, suffix@),
{
    let mut tail = name.to_owned();
    tail.append(suffix);
    if starts_with(&chars_of(tail.as_str()), &chars_of(JUST_PREFIX)) {
        tail
    } else {
        let mut filename = JUST_PREFIX.to_owned();
        filename.append(tail.as_str());
        assert(filename@ == prefix() + name@ + suffix@);
        filename
    }
}

/// Whether `filename` is the file name of some extension.
pub fn is_managed_filename(filename: &str, suffix: &str) -> (managed: bool)
    ensures
        managed == is_managed(filename@, suffix@),
{
    let file = chars_of(filename);
    let head = chars_of(JUST_PREFIX);
    let tail = chars_of(suffix);
    head.len() <= file.len() && tail.len() <= file.len() - head.len() && starts_with(&file, &head)
        && ends_with(&file, &tail)
}

/// The name of the extension stored as `filename`: the file name without
/// prefix and suffix.
pub fn to_display_name(filename: &str, suffix: &str) -> (name: String)
    requires
        is_managed(filename@, suffix@),
    ensures
        name@ == display_name(filename@, suffix@),
{
    let start = JUST_PREFIX.unicode_len();
    let end = filename.unicode_len() - suffix.unicode_len();
    filename.substring_char(start, end).to_owned()
}

/// The name of the extension stored as `filename`, or `None` where
/// `filename` is not managed.
pub fn extension_name(filename: &str, suffix: &str) -> (name: Option<String>)
    ensures
        match name {
            Some(n) => extension_of(filename@, suffix@) == Some(n@),
            None => extension_of(filename@, suffix@) is None,
        },
{
    if is_managed_filename(filename, suffix) {
        Some(to_display_name(filename, suffix))
    } else {
        None
    }
}

/// A managed file name is the prefix, its display name and the suffix, in
/// that order.
pub proof fn lemma_managed_parts(filename: Seq<char>, suffix: Seq<char>)
    requires
        is_managed(filename, suffix),
    ensures
        filename == prefix() + display_name(filename, suffix) + suffix,
{
    assert(filename =~= prefix() + display_name(filename, suffix) + suffix);
}

/// Whatever stands between the prefix and the suffix is read back as it is:
/// the prefix is taken off once, also where the rest begins with the prefix
/// again.
pub proof fn lemma_display_name_of_parts(name: Seq<char>, suffix: Seq<char>)
    ensures
        is_managed(prefix() + name + suffix, suffix),
        display_name(prefix() + name + suffix, suffix) == name,
{
    let filename = prefix() + name + suffix;
    assert(filename.subrange(0, prefix().len() as int) =~= prefix());
    assert(filename.subrange(filename.len() - suffix.len(), filename.len() as int) =~= suffix);
    assert(display_name(filename, suffix) =~= name);
}

/// The file name of an extension is managed, unless the prefix that was found
/// in front of it reaches into the suffix.
pub proof fn lemma_managed_filename_is_managed(name: Seq<char>, suffix: Seq<char>)
    requires
        prefix().is_prefix_of(name + suffix) ==> prefix().len() <= name.len(),
    ensures
        is_managed(managed_filename(name, suffix), suffix),
{
    if prefix().is_prefix_of(name + suffix) {
        let filename = name + suffix;
        assert(filename.subrange(filename.len() - suffix.len(), filename.len() as int) =~= suffix);
    } else {
        lemma_display_name_of_parts(name, suffix);
    }
}

/// Round trip: the display name of the file name of `name` is `name`, for
/// every name that does not itself begin with the prefix (more exactly:
/// whose file name had to be given the prefix).
pub proof fn lemma_display_name_of_managed_filename(name: Seq<char>, suffix: Seq<char>)
    requires
        !prefix().is_prefix_of(name + suffix),
    ensures
        display_name(managed_filename(name, suffix), suffix) == name,
{
    lemma_display_name_of_parts(name, suffix);
}

/// Prefixing is idempotent: a file name, read back as a display name and
/// turned into a file name again, is the same file name. It holds where the
/// file name is managed and does not begin with the prefix twice.
pub proof fn lemma_managed_filename_idempotent(name: Seq<char>, suffix: Seq<char>)
    requires
        is_managed(managed_filename(name, suffix), suffix),
        !(prefix() + prefix()).is_prefix_of(name + suffix),
    ensures
        managed_filename(display_name(managed_filename(name, suffix), suffix), suffix)
            == managed_filename(name, suffix),
{
    let filename = managed_filename(name, suffix);
    let shown = display_name(filename, suffix);
    lemma_managed_parts(filename, suffix);
    if prefix().is_prefix_of(name + suffix) {
        assert(filename == prefix() + (shown + suffix)) by {
            assert(prefix() + shown + suffix =~= prefix() + (shown + suffix));
        }
        if prefix().is_prefix_of(shown + suffix) {
            let twice = prefix() + prefix();
            assert(twice =~= filename.subrange(0, twice.len() as int)) by {
                assert forall|i: int| 0 <= i < twice.len() implies twice[i] == filename[i] by {
                    if i >= prefix().len() {
                        assert(prefix()[i - prefix().len()] == (shown + suffix).subrange(
                            0,
                            prefix().len() as int,
                        )[i - prefix().len()]);
                    }
                }
            }
            assert(false);
        }
    } else {
        lemma_display_name_of_parts(name, suffix);
    }
}

/// Only one managed file name is shown under a given name: where `name` does
/// not begin with the prefix, it is the file name of `name`.
pub proof fn lemma_display_name_determines_filename(
    filename: Seq<char>,
    name: Seq<char>,
    suffix: Seq<char>,
)
    requires
        is_managed(filename, suffix),
        display_name(filename, suffix) == name,
        !prefix().is_prefix_of(name + suffix),
    ensures
        filename == managed_filename(name, suffix),
{
    lemma_managed_parts(filename, suffix);
}

} // verus!
