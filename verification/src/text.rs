//! Text that crosses the boundary: decoding, URL validation and the title line.

use vstd::prelude::*;
use vstd::string::StringExecFns;
use vstd::utf8::{decode_utf8, valid_utf8};

verus! {

/// The serialization of the absolute URL that a text parses to under the rules of
/// `url::Url::parse`, or `None` where the text is no absolute URL.
pub uninterp spec fn url_parse(text: Seq<char>) -> Option<Seq<char>>;

/// The characters of an optional text.
pub open spec fn text_of(text: Option<String>) -> Option<Seq<char>> {
    match text {
        Some(s) => Some(s@),
        None => None,
    }
}

/// Calls `url::Url::parse` and, where it succeeds, takes the URL's serialization
/// out of it. Trusted: the outcome is the one that [`url_parse`] names for the
/// same text; nothing more is claimed of it.
#[verifier::external_body]
pub(crate) fn parse_url(text: &str) -> (parsed: Option<String>)
    ensures
        text_of(parsed) == url_parse(text@),
{
    match url::Url::parse(text) {
        Ok(url) => Some(url.into()),
        Err(_) => None,
    }
}

/// Calls `std::str::from_utf8`. Trusted: it succeeds exactly on well-formed UTF-8,
/// and the string slice then holds the characters that the bytes encode.
#[verifier::external_body]
fn str_from_utf8<'a>(bytes: &'a [u8]) -> (text: Option<&'a str>)
    ensures
        text is Some <==> valid_utf8(bytes@),
        text matches Some(s) ==> s@ == decode_utf8(bytes@),
{
    std::str::from_utf8(bytes).ok()
}

/// What a byte string reads as: its characters where it is well-formed UTF-8.
pub open spec fn spec_read_str(bytes: Seq<u8>) -> Option<Seq<char>> {
    if valid_utf8(bytes) {
        Some(decode_utf8(bytes))
    } else {
        None
    }
}

/// Decodes text supplied by the host.
pub fn read_str(bytes: &[u8]) -> (text: Option<String>)
    ensures
        text_of(text) == spec_read_str(bytes@),
{
    match str_from_utf8(bytes) {
        Some(s) => Some(s.to_owned()),
        None => None,
    }
}

/// The title shown for a page that has neither a title nor a known URL.
pub open spec fn placeholder_title() -> Seq<char> {
    "Untitled"@
}

/// What follows every title that is shown.
pub open spec fn title_suffix() -> Seq<char> {
    " - Servo"@
}

/// The title that stands for a page: its own where that is not empty, else the
/// URL last recorded, else the placeholder.
pub open spec fn effective_title(title: Option<Seq<char>>, current_url: Option<Seq<char>>) -> Seq<
    char,
> {
    match title {
        Some(own) if own.len() > 0 => own,
        _ => match current_url {
            Some(url) => url,
            None => placeholder_title(),
        },
    }
}

/// The title line handed to the host.
pub open spec fn spec_displayed_title(
    title: Option<Seq<char>>,
    current_url: Option<Seq<char>>,
) -> Seq<char> {
    effective_title(title, current_url) + title_suffix()
}

/// Builds the title line handed to the host from what the engine reported and
/// the URL last recorded.
pub fn displayed_title(title: &Option<String>, current_url: &Option<String>) -> (shown: String)
    ensures
        shown@ == spec_displayed_title(text_of(*title), text_of(*current_url)),
{
    let own: bool = match title {
        Some(t) => !t.as_str().is_empty(),
        None => false,
    };
    let mut shown = if own {
        match title {
            Some(t) => t.clone(),
            None => String::new(),
        }
    } else {
        match current_url {
            Some(url) => url.clone(),
            None => String::from_str("Untitled"),
        }
    };
    shown.append(" - Servo");
    shown
}

/// The line that tells the host which engine it runs.
pub open spec fn spec_version_line(engine_version: Seq<char>) -> Seq<char> {
    "Servo Version: "@ + engine_version
}

} // verus!
