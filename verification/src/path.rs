//! Path resolution: from the path of a request to the key of an object.
//!
//! A request path is cleaned lexically against the site's root, so that no
//! sequence of `..` can lead out of it, and a path that names a page rather
//! than a file is sent to the index document of its directory.

use vstd::prelude::*;
use vstd::string::{StrSliceExecFns, StringExecFns};
use crate::content_type::{
    classified,
    classify_guess,
    content_type_of,
    first_guess,
    guessed_type,
    html_type,
    is_html,
    lemma_html_type_is_header_safe,
};
use crate::errors::{Error, ErrorView};
use crate::text::chars_of;

verus! {

/// The lexically cleaned form of `path` as the `path_clean` crate computes it:
/// separators collapsed, `.` segments dropped, each `..` resolved against the
/// segment before it. `None` where the cleaned path has no string form.
pub uninterp spec fn cleaned_path(path: Seq<char>) -> Option<Seq<char>>;

/// `raw` as a path that starts at the site's root.
pub open spec fn rooted(raw: Seq<char>) -> Seq<char> {
    "/"@ + raw
}

/// The document that stands for a directory.
pub open spec fn index_document() -> Seq<char> {
    "index.html"@
}

/// What is appended to the path of a page to reach its index document.
pub open spec fn index_suffix() -> Seq<char> {
    "/index.html"@
}

/// Whether a segment of `path` that reads `..` starts at position `i`.
pub open spec fn parent_segment_at(path: Seq<char>, i: int) -> bool {
    &&& 0 <= i
    &&& i + 2 <= path.len()
    &&& (i == 0 || path[i - 1] == '/')
    &&& path[i] == '.'
    &&& path[i + 1] == '.'
    &&& (i + 2 == path.len() || path[i + 2] == '/')
}

/// Whether some segment of `path` reads `..`.
pub open spec fn has_parent_segment(path: Seq<char>) -> bool {
    exists|i: int| parent_segment_at(path, i)
}

/// Whether `cleaned` is a path inside the site's root: it starts with exactly
/// one separator and none of its segments reads `..`.
pub open spec fn is_confined(cleaned: Seq<char>) -> bool {
    &&& cleaned.len() > 0
    &&& cleaned[0] == '/'
    &&& (cleaned.len() > 1 ==> cleaned[1] != '/')
    &&& !has_parent_segment(cleaned)
}

/// Whether `path` is relative to the root and stays below it: no leading
/// separator and no `..` segment.
pub open spec fn stays_below_root(path: Seq<char>) -> bool {
    &&& (path.len() > 0 ==> path[0] != '/')
    &&& !has_parent_segment(path)
}

/// The path below the root that a cleaned path stands for, where it is
/// confined to the root.
pub open spec fn relative_of(cleaned: Option<Seq<char>>) -> Option<Seq<char>> {
    match cleaned {
        Some(path) => if is_confined(path) {
            Some(path.subrange(1, path.len() as int))
        } else {
            None
        },
        None => None,
    }
}

/// The key for a path below the root, given what the extension table says of
/// it: the index document for the root itself, the index document of the
/// directory for a page, and the path itself for any other file.
pub open spec fn key_of(relative: Seq<char>, guess: Option<Seq<char>>) -> Seq<char> {
    if relative.len() == 0 {
        index_document()
    } else if classified(guess) == html_type() {
        relative + index_suffix()
    } else {
        relative
    }
}

/// The key that a request path resolves to, or `None` where it is rejected.
pub open spec fn resolved(raw: Seq<char>) -> Option<Seq<char>> {
    match relative_of(cleaned_path(rooted(raw))) {
        Some(relative) => Some(key_of(relative, guessed_type(relative))),
        None => None,
    }
}

/// Dropping the root separator of a confined path leaves a path that stays
/// below the root.
pub proof fn lemma_relative_stays_below_root(cleaned: Seq<char>)
    requires
        is_confined(cleaned),
    ensures
        stays_below_root(cleaned.subrange(1, cleaned.len() as int)),
{
    let relative = cleaned.subrange(1, cleaned.len() as int);
    assert forall|i: int| !parent_segment_at(relative, i) by {
        if parent_segment_at(relative, i) {
            assert(parent_segment_at(cleaned, i + 1));
        }
    }
}

/// A key never starts with a separator, never holds a `..` segment and is
/// never empty, whatever the extension table says.
pub proof fn lemma_key_stays_below_root(relative: Seq<char>, guess: Option<Seq<char>>)
    requires
        stays_below_root(relative),
    ensures
        stays_below_root(key_of(relative, guess)),
        key_of(relative, guess).len() > 0,
{
    reveal_strlit("index.html");
    reveal_strlit("/index.html");
    let key = key_of(relative, guess);
    assert forall|i: int| !parent_segment_at(key, i) by {
        if parent_segment_at(key, i) {
            if relative.len() > 0 && i + 2 <= relative.len() {
                assert(parent_segment_at(relative, i));
            }
        }
    }
}

/// No request path resolves to a key outside the site's root: a key is never
/// empty, never starts with a separator and never holds a `..` segment,
/// whatever the path held.
pub proof fn lemma_resolved_stays_below_root(raw: Seq<char>)
    ensures
        resolved(raw) matches Some(key) ==> stays_below_root(key) && key.len() > 0,
{
    let cleaned = cleaned_path(rooted(raw));
    if let Some(relative) = relative_of(cleaned) {
        lemma_relative_stays_below_root(cleaned->Some_0);
        lemma_key_stays_below_root(relative, guessed_type(relative));
    }
}

/// A path below the root whose extension the table does not know is an HTML
/// page, and resolves to the index document of its directory.
pub proof fn lemma_unknown_extension_resolves_to_index(raw: Seq<char>)
    ensures
        relative_of(cleaned_path(rooted(raw))) matches Some(relative) ==> (relative.len() > 0
            && guessed_type(relative) is None ==> content_type_of(relative) == html_type()
            && resolved(raw) == Some(relative + index_suffix())),
{
}

/// A path below the root whose content type is not HTML resolves to itself,
/// without a suffix, and its key is served with the type that the table lists
/// for its extension.
pub proof fn lemma_known_extension_resolves_unchanged(raw: Seq<char>)
    ensures
        relative_of(cleaned_path(rooted(raw))) matches Some(relative) ==> (relative.len() > 0
            && content_type_of(relative) != html_type() ==> resolved(raw) == Some(relative)
            && guessed_type(relative) == Some(content_type_of(relative))),
{
    lemma_html_type_is_header_safe();
}

/// `path_clean::clean`, with the cleaned path turned back into a string
/// (`None` where `Path::to_str` finds none). The contract only names the
/// result: the same path always cleans to the same path.
#[verifier::external_body]
fn clean_path(path: &str) -> (cleaned: Option<String>)
    ensures
        match cleaned {
            Some(text) => cleaned_path(path@) == Some(text@),
            None => cleaned_path(path@) is None,
        },
{
    path_clean::clean(path).to_str().map(|text| text.to_string())
}

/// Tells whether some segment of `path` reads `..`.
pub fn contains_parent_segment(path: &Vec<char>) -> (found: bool)
    ensures
        found == has_parent_segment(path@),
{
    let n = path.len();
    if n < 2 {
        return false;
    }
    let mut i: usize = 0;
    while i <= n - 2
        invariant
            n == path.len(),
            n >= 2,
            i <= n - 1,
            forall|k: int| 0 <= k < i ==> !parent_segment_at(path@, k),
        decreases n - i,
    {
        if (i == 0 || path[i - 1] == '/') && path[i] == '.' && path[i + 1] == '.' && (i + 2 == n
            || path[i + 2] == '/') {
            assert(parent_segment_at(path@, i as int));
            return true;
        }
        i += 1;
    }
    false
}

/// Takes what cleaning returned to the path below the root: the cleaned path
/// without its root separator. Rejects a path that is not confined to the
/// root, and a missing one.
pub fn confine(cleaned: Option<String>) -> (outcome: Result<String, Error>)
    ensures
        match relative_of(cleaned.deep_view()) {
            Some(relative) => outcome matches Ok(path) && path@ == relative,
            None => outcome matches Err(error) && error@ == ErrorView::Rejected,
        },
        outcome matches Ok(path) ==> stays_below_root(path@),
{
    let text = match cleaned {
        Some(text) => text,
        None => {
            return Err(Error::Rejected);
        },
    };
    let chars = chars_of(text.as_str());
    let n = chars.len();
    if n == 0 || chars[0] != '/' || (n > 1 && chars[1] == '/') || contains_parent_segment(&chars) {
        return Err(Error::Rejected);
    }
    proof {
        lemma_relative_stays_below_root(text@);
    }
    let relative = text.as_str().substring_char(1, n);
    Ok(String::from_str(relative))
}

/// The key for a path below the root, given what the extension table says of
/// it.
pub fn key_for(relative: String, guess: Option<String>) -> (key: String)
    ensures
        key@ == key_of(relative@, guess.deep_view()),
{
    if relative.as_str().is_empty() {
        return String::from_str("index.html");
    }
    let mime = classify_guess(guess);
    if is_html(mime.as_str()) {
        relative.concat("/index.html")
    } else {
        relative
    }
}

/// Resolves the path of a request to the key of the object that answers it.
///
/// The path is cleaned against the site's root. The root itself resolves to
/// the index document; a path whose content type is HTML, which includes every
/// path without a known extension, resolves to the index document of that
/// directory; any other path resolves to the cleaned path itself, without a
/// leading separator. A key never leaves the root.
pub fn resolve(raw: &str) -> (outcome: Result<String, Error>)
    ensures
        match resolved(raw@) {
            Some(key) => outcome matches Ok(found) && found@ == key,
            None => outcome matches Err(error) && error@ == ErrorView::Rejected,
        },
        outcome matches Ok(found) ==> stays_below_root(found@) && found@.len() > 0,
{
    let mut from_root = String::from_str("/");
    from_root.append(raw);
    let cleaned = clean_path(from_root.as_str());
    let relative = confine(cleaned)?;
    let guess = if relative.as_str().is_empty() {
        None
    } else {
        first_guess(relative.as_str())
    };
    proof {
        lemma_key_stays_below_root(relative@, guess.deep_view());
    }
    Ok(key_for(relative, guess))
}

} // verus!
