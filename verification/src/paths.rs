use vstd::prelude::*;
use vstd::utf8::{decode_utf8, valid_utf8};

use crate::text::{ascii_lowered, is_ascii_text};

verus! {

/// The text of `Path::new(base).join(part)`: `part` appended to `base` with a
/// separator, or `part` alone when it is absolute. The separator rules are
/// those of the compilation target.
pub uninterp spec fn joined_path(base: Seq<char>, part: Seq<char>) -> Seq<char>;

/// Whether `Path::new(p).is_absolute()` holds on the compilation target.
pub uninterp spec fn path_is_absolute(p: Seq<char>) -> bool;

/// Whether `Path::new(p).starts_with(base)`: `base` is a prefix of `p` made
/// of whole path components.
pub uninterp spec fn path_has_prefix(p: Seq<char>, base: Seq<char>) -> bool;

/// The extension of the file name of `p` as `Path::extension` gives it (the
/// text after the last `.` of the file name, none for a file name without
/// an inner `.`).
pub uninterp spec fn path_extension(p: Seq<char>) -> Option<Seq<char>>;

/// The text of `String::from_utf8_lossy(bytes)`.
pub uninterp spec fn lossy_utf8(bytes: Seq<u8>) -> Seq<char>;

/// The text of `str::to_lowercase(s)` (Unicode lower-case mapping).
pub uninterp spec fn lowercase(s: Seq<char>) -> Seq<char>;

/// `std::path::Path::join`, on paths held as text. The contract names the
/// joined path by `joined_path`; it claims nothing more of it.
#[verifier::external_body]
pub(crate) fn join_path(base: &str, part: &str) -> (r: String)
    ensures
        r@ == joined_path(base@, part@),
{
    std::path::Path::new(base).join(part).to_string_lossy().into_owned()
}

/// `std::path::Path::is_absolute`, on a path held as text; the answer is
/// named by `path_is_absolute`.
#[verifier::external_body]
pub(crate) fn is_absolute_path(p: &str) -> (r: bool)
    ensures
        r == path_is_absolute(p@),
{
    std::path::Path::new(p).is_absolute()
}

/// `std::path::Path::starts_with`, on paths held as text; the answer is named
/// by `path_has_prefix`.
#[verifier::external_body]
pub(crate) fn path_starts_with(p: &str, base: &str) -> (r: bool)
    ensures
        r == path_has_prefix(p@, base@),
{
    std::path::Path::new(p).starts_with(base)
}

/// `std::path::Path::extension`, converted to text; the answer is named by
/// `path_extension`. A path given as text has a UTF-8 extension, so the
/// conversion loses nothing.
#[verifier::external_body]
pub(crate) fn extension_of(p: &str) -> (r: Option<String>)
    ensures
        r matches Some(e) ==> path_extension(p@) == Some(e@),
        r is None ==> path_extension(p@) is None,
{
    match std::path::Path::new(p).extension() {
        Some(e) => match e.to_str() {
            Some(t) => Some(t.to_string()),
            None => None,
        },
        None => None,
    }
}

/// `String::from_utf8_lossy`: the text of a byte string, with each invalid
/// sequence replaced by U+FFFD. The contract names the text by `lossy_utf8`
/// and states, as the documentation does, that valid UTF-8 is decoded as is.
#[verifier::external_body]
pub(crate) fn utf8_lossy(bytes: &[u8]) -> (r: String)
    ensures
        r@ == lossy_utf8(bytes@),
        valid_utf8(bytes@) ==> r@ == decode_utf8(bytes@),
{
    String::from_utf8_lossy(bytes).into_owned()
}

/// `str::to_lowercase`; the result is named by `lowercase`. On ASCII text
/// the Unicode lower-case mapping is the ASCII one, so there the result is
/// the text with its upper-case letters lowered.
#[verifier::external_body]
pub(crate) fn to_lowercase(s: &str) -> (r: String)
    ensures
        r@ == lowercase(s@),
        is_ascii_text(s@) ==> r@ == ascii_lowered(s@),
{
    s.to_lowercase()
}

} // verus!
