//! Selecting text from HTML, done by the `scraper` crate.

use vstd::prelude::*;
use vstd::string::StringSliceAdditionalSpecFns;
use vstd::utf8::encode_utf8;
use scraper::{Html, Selector};
use crate::text::text_views;

verus! {

/// The longest document that is handed to the parser, in bytes: a third
/// of 2^31, rounded down.
///
/// The parser keeps every text in a `tendril`, a buffer whose capacity is
/// a 32-bit number that grows in powers of two, and it panics when a
/// buffer that it appends to would pass 2^31 bytes. A text of the document
/// is appended piece by piece, and parsing can make it longer than it
/// stands in the document: at most threefold, where a NUL byte becomes the
/// three-byte replacement character. With `3 * length <= 2^31` no buffer
/// can pass that mark.
pub const MAX_DOCUMENT_BYTES: usize = 0x2aaa_aaaa;

/// Whether a document is short enough for the parser: its UTF-8 encoding
/// has no more than [`MAX_DOCUMENT_BYTES`] bytes.
pub open spec fn fits_parser(html: Seq<char>) -> bool {
    encode_utf8(html).len() <= MAX_DOCUMENT_BYTES
}

/// Tells whether a document is short enough for the parser.
pub fn is_parseable(html: &str) -> (b: bool)
    ensures
        b == fits_parser(html@),
        b == (html.spec_bytes().len() <= MAX_DOCUMENT_BYTES),
{
    html.as_bytes().len() <= MAX_DOCUMENT_BYTES
}

/// The text nodes below the first element of the HTML document `html` that
/// the CSS selector group `selector` matches.
///
/// The first element is the first among the nodes as `scraper` holds them
/// after parsing; its text nodes are those that a walk through its
/// descendants meets, in the order of the walk. `None` where the selector
/// does not parse or no element matches. This is what `scraper` computes
/// from the two texts; nothing more is known of it here.
pub uninterp spec fn first_match_text(html: Seq<char>, selector: Seq<char>) -> Option<
    Seq<Seq<char>>,
>;

/// The views of the texts of an optional list.
pub open spec fn text_list_view(texts: Option<Vec<String>>) -> Option<Seq<Seq<char>>> {
    match texts {
        Some(list) => Some(text_views(list@)),
        None => None,
    }
}

/// Parses `html` with `scraper::Html::parse_document` and `selector` with
/// `scraper::Selector::parse`, takes the first element that
/// `scraper::Html::select` yields and collects what
/// `scraper::ElementRef::text` yields for it.
///
/// The document is kept to [`MAX_DOCUMENT_BYTES`] bytes. The parser takes
/// its input as one `tendril` and appends each run of text to the `tendril`
/// of a text node; growing such a buffer beyond 2^31 bytes panics
/// (`tendril::buf32::Buf32::grow`), and so does a length beyond 32 bits.
/// Three times the bound is 2^31 at most, and no text grows more than
/// threefold in parsing, so neither happens. The contract claims only that
/// the outcome depends on the two texts alone: the parser, the selector
/// matching and the walk over the text nodes read nothing else.
#[verifier::external_body]
pub(crate) fn select_first_text(html: &str, selector: &str) -> (found: Option<Vec<String>>)
    requires
        html.spec_bytes().len() <= MAX_DOCUMENT_BYTES,
    ensures
        text_list_view(found) == first_match_text(html@, selector@),
{
    let selector = Selector::parse(selector).ok()?;
    let document = Html::parse_document(html);
    let element = document.select(&selector).next()?;
    Some(element.text().map(String::from).collect())
}

} // verus!
