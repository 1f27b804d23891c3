//! Which files of a catalogue directory are read, and when a walk over them has failed.

use vstd::prelude::*;

verus! {

/// The pattern that the extension of a catalogue file has to hold somewhere.
pub const EXTENSION_PATTERN: &'static str = "ya+ml";

/// Whether the regular expression `pattern` matches anywhere in `text`, as
/// `regex` decides it: what `Regex::is_match` returns for the expression that
/// `Regex::new` compiles. `None` where the pattern does not compile.
pub uninterp spec fn regex_found(pattern: Seq<char>, text: Seq<char>) -> Option<bool>;

/// Compiles `pattern` with `Regex::new` of `regex` and calls `Regex::is_match`
/// on `text`, which says whether the expression matches anywhere in it. Both
/// depend on the two texts alone. The contract names the answer
/// [`regex_found`], with `None` where the pattern does not compile.
#[verifier::external_body]
fn pattern_found(pattern: &str, text: &str) -> (found: Option<bool>)
    ensures
        found == regex_found(pattern@, text@),
{
    Some(regex::Regex::new(pattern).ok()?.is_match(text))
}

/// What becomes of an entry of a catalogue directory.
#[derive(Clone, Copy, Debug, PartialEq, Eq, Structural)]
pub enum Entry {
    /// The file is read.
    Read,
    /// The file has an extension that the pattern does not match.
    InvalidExtension,
    /// The file has no extension.
    NoExtension,
}

/// The pattern for extensions is no regular expression.
#[derive(Clone, Copy, Debug, PartialEq, Eq, Structural)]
pub struct BadPattern;

/// What becomes of an entry with this extension under this pattern.
pub open spec fn entry_kind(pattern: Seq<char>, extension: Option<Seq<char>>) -> Result<
    Entry,
    BadPattern,
> {
    match extension {
        Some(text) => match regex_found(pattern, text) {
            Some(found) => if found {
                Ok(Entry::Read)
            } else {
                Ok(Entry::InvalidExtension)
            },
            None => Err(BadPattern),
        },
        None => Ok(Entry::NoExtension),
    }
}

/// Decides what becomes of a directory entry from the extension of its name.
pub fn classify_entry(pattern: &str, extension: Option<&str>) -> (kind: Result<Entry, BadPattern>)
    ensures
        kind == entry_kind(
            pattern@,
            match extension {
                Some(text) => Some(text@),
                None => None,
            },
        ),
{
    match extension {
        Some(text) => match pattern_found(pattern, text) {
            Some(found) => {
                if found {
                    Ok(Entry::Read)
                } else {
                    Ok(Entry::InvalidExtension)
                }
            },
            None => Err(BadPattern),
        },
        None => Ok(Entry::NoExtension),
    }
}

/// Whether a walk over a directory has failed: it has where an entry could
/// not be listed, a file was refused for its name, or a file could not be
/// read as a record.
pub fn has_errors(file_errors: usize, extension_errors: usize, record_errors: usize) -> (failed:
    bool)
    ensures
        failed == (file_errors > 0 || extension_errors > 0 || record_errors > 0),
{
    file_errors > 0 || extension_errors > 0 || record_errors > 0
}

} // verus!
