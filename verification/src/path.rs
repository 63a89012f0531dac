//! File extensions, as the standard library's path rules see them.
//!
//! Where a path splits into components is settled by `std::path` for the
//! target the library is compiled for. On one target the same path always
//! gets the same answer, and the three names below stand for those answers.
//! The wrappers that call `std::path` are believed, not proved; everything
//! else in the library is proved against what they state.

use crate::text::opt_text;
use vstd::prelude::*;
use vstd::string::*;

verus! {

/// Whether `std::path::is_separator` takes `c` for a separator of path components.
pub uninterp spec fn is_path_separator(c: char) -> bool;

/// The extension that `std::path::Path::extension` finds in `path`: the part
/// of the file name behind its last dot, where there is one.
pub uninterp spec fn path_extension(path: Seq<char>) -> Option<Seq<char>>;

/// What `std::path::PathBuf::set_extension` makes of `path` when asked for `extension`.
pub uninterp spec fn path_with_extension(path: Seq<char>, extension: Seq<char>) -> Seq<char>;

/// No character of `text` separates path components.
pub open spec fn separator_free(text: Seq<char>) -> bool {
    forall|i: int| 0 <= i < text.len() ==> !is_path_separator(#[trigger] text[i])
}

/// Calls `std::path::is_separator`. Trusted: the answer is the one named by
/// [`is_path_separator`], and only `/` and `\` ever separate components, as
/// the module documentation of `std::path` has it.
#[verifier::external_body]
pub(crate) fn is_separator(c: char) -> (separates: bool)
    ensures
        separates == is_path_separator(c),
        separates ==> c == '/' || c == '\\',
{
    std::path::is_separator(c)
}

/// Calls `std::path::Path::extension` on `path`. Trusted: the answer is the
/// one named by [`path_extension`]. The path is valid UTF-8, and so is every
/// part of it, which makes the conversion back to a `String` exact.
#[verifier::external_body]
pub(crate) fn extension(path: &str) -> (found: Option<String>)
    ensures
        opt_text(found) == path_extension(path@),
{
    match std::path::Path::new(path).extension() {
        Some(ext) => Some(ext.to_string_lossy().into_owned()),
        None => None,
    }
}

/// Calls `std::path::PathBuf::set_extension` on a copy of `path`. Trusted:
/// the outcome is the one named by [`path_with_extension`]. The call panics
/// on an extension that holds a path separator, which `requires` rules out.
#[verifier::external_body]
pub(crate) fn set_extension(path: &str, extension: &str) -> (renamed: String)
    requires
        separator_free(extension@),
    ensures
        renamed@ == path_with_extension(path@, extension@),
{
    let mut buf = std::path::PathBuf::from(path);
    buf.set_extension(extension);
    buf.to_string_lossy().into_owned()
}

/// Whether some character of `text` separates path components.
pub fn holds_separator(text: &str) -> (found: bool)
    ensures
        found == !separator_free(text@),
        forall|i: int|
            0 <= i < text@.len() && is_path_separator(#[trigger] text@[i]) ==> text@[i] == '/'
                || text@[i] == '\\',
{
    let n = text.unicode_len();
    let mut found = false;
    let mut i: usize = 0;
    while i < n
        invariant
            i <= n,
            n == text@.len(),
            found == !separator_free(text@.take(i as int)),
            forall|k: int|
                0 <= k < i && is_path_separator(#[trigger] text@[k]) ==> text@[k] == '/'
                    || text@[k] == '\\',
        decreases n - i,
    {
        let c = text.get_char(i);
        let ghost seen = text@.take(i as int);
        let ghost next = text@.take(i + 1);
        let separates = is_separator(c);
        proof {
            assert(next =~= seen.push(c));
            if separates {
                assert(is_path_separator(next[i as int]));
            } else if !separator_free(seen) {
                let k = choose|k: int| 0 <= k < seen.len() && is_path_separator(#[trigger] seen[k]);
                assert(is_path_separator(next[k]));
            } else {
                assert forall|k: int| 0 <= k < next.len() implies !is_path_separator(
                    #[trigger] next[k],
                ) by {
                    if k < i {
                        assert(next[k] == seen[k]);
                    }
                }
            }
        }
        if separates {
            found = true;
        }
        i += 1;
    }
    assert(text@.take(i as int) == text@);
    found
}

} // verus!
