//! Content types: which media type a key is served with.
//!
//! The extension table is that of the `mime_guess` crate. What this module adds
//! is the fallback to HTML and the guarantee that a classification can always
//! be sent as the value of a `Content-Type` header.

use vstd::prelude::*;
use vstd::string::StringExecFns;
use crate::text::chars_of;

verus! {

/// The first media type that the `mime_guess` extension table lists for
/// `path`, written as `type/subtype`, or `None` where the last segment of
/// `path` has no extension or one that the table does not know.
pub uninterp spec fn guessed_type(path: Seq<char>) -> Option<Seq<char>>;

/// The type of a page, and of every key whose extension says nothing.
pub open spec fn html_type() -> Seq<char> {
    "text/html"@
}

/// Whether `c` is a printable ASCII character or a space.
pub open spec fn is_header_char(c: char) -> bool {
    ' ' <= c <= '~'
}

/// Whether `text` can stand as the value of an HTTP header: it is not empty
/// and holds printable ASCII only.
pub open spec fn is_header_safe(text: Seq<char>) -> bool {
    &&& text.len() > 0
    &&& forall|i: int| 0 <= i < text.len() ==> is_header_char(#[trigger] text[i])
}

/// The classification that follows from a table lookup: the type found, if
/// there is one that a header can carry, and HTML otherwise.
pub open spec fn classified(guess: Option<Seq<char>>) -> Seq<char> {
    match guess {
        Some(found) => if is_header_safe(found) {
            found
        } else {
            html_type()
        },
        None => html_type(),
    }
}

/// The content type of `path`.
pub open spec fn content_type_of(path: Seq<char>) -> Seq<char> {
    classified(guessed_type(path))
}

/// The HTML type can be sent as a header value.
pub proof fn lemma_html_type_is_header_safe()
    ensures
        is_header_safe(html_type()),
{
    reveal_strlit("text/html");
}

/// First guess of `mime_guess::from_path` for `path` (`MimeGuess::first`),
/// rendered through the `Display` of `mime::Mime`. The contract only names the
/// result: the same path always gets the same answer.
#[verifier::external_body]
pub(crate) fn first_guess(path: &str) -> (guess: Option<String>)
    ensures
        match guess {
            Some(found) => guessed_type(path@) == Some(found@),
            None => guessed_type(path@) is None,
        },
{
    mime_guess::from_path(path).first().map(|mime| mime.to_string())
}

/// Tells whether `text` can stand as the value of an HTTP header.
pub fn header_safe(text: &str) -> (safe: bool)
    ensures
        safe == is_header_safe(text@),
{
    let chars = chars_of(text);
    if chars.len() == 0 {
        return false;
    }
    let mut i: usize = 0;
    while i < chars.len()
        invariant
            i <= chars.len(),
            chars@ == text@,
            forall|k: int| 0 <= k < i ==> is_header_char(#[trigger] text@[k]),
        decreases chars.len() - i,
    {
        let c = chars[i];
        if !(' ' <= c && c <= '~') {
            return false;
        }
        i += 1;
    }
    true
}

/// The HTML type.
pub fn html() -> (mime: String)
    ensures
        mime@ == html_type(),
        is_header_safe(mime@),
{
    proof {
        lemma_html_type_is_header_safe();
    }
    String::from_str("text/html")
}

/// Tells whether `mime` is the HTML type.
pub fn is_html(mime: &str) -> (yes: bool)
    ensures
        yes == (mime@ == html_type()),
{
    String::from_str(mime) == html()
}

/// The classification that follows from a table lookup: the type found, where
/// a header can carry it, and HTML otherwise.
pub fn classify_guess(guess: Option<String>) -> (mime: String)
    ensures
        mime@ == classified(guess.deep_view()),
        is_header_safe(mime@),
{
    match guess {
        Some(found) => {
            if header_safe(found.as_str()) {
                found
            } else {
                html()
            }
        },
        None => html(),
    }
}

/// The content type that `path` is served with: the media type of its
/// extension, and HTML where the extension is missing or unknown. Never fails.
pub fn classify(path: &str) -> (mime: String)
    ensures
        mime@ == content_type_of(path@),
        is_header_safe(mime@),
{
    let guess = first_guess(path);
    classify_guess(guess)
}

} // verus!
