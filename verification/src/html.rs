//! Reading an HTML document. Parsing and selecting are done by `scraper`;
//! the library takes from it the texts of the elements that a selector
//! matches, and nothing else.

use vstd::prelude::*;
use vstd::string::StringSliceAdditionalSpecFns;
use crate::constants::{JSON_LD_SELECTOR, MAX_DOCUMENT_BYTES};
use crate::text::texts;

verus! {

/// What `scraper` selects from a document: for each element that
/// `Html::select` yields for the parsed document and the parsed selector, in
/// the order in which it yields them, the texts below that element, joined.
/// `None` where `Selector::parse` does not accept the selector.
pub uninterp spec fn selected_texts(html: Seq<char>, selector: Seq<char>) -> Option<
    Seq<Seq<char>>,
>;

/// Whether a document is short enough for the HTML parser: its UTF-8 form
/// has at most [`MAX_DOCUMENT_BYTES`] bytes.
pub open spec fn fits_parser(html: &str) -> bool {
    html.spec_bytes().len() <= MAX_DOCUMENT_BYTES
}

/// The texts of the JSON-LD script elements of a document.
pub open spec fn json_ld_texts(html: Seq<char>) -> Seq<Seq<char>> {
    match selected_texts(html, JSON_LD_SELECTOR@) {
        Some(found) => found,
        None => Seq::empty(),
    }
}

/// Calls `Selector::parse` on the selector and `Html::parse_document` on the
/// document, then `Html::select`, and `ElementRef::text` on each element.
/// Trusted: the result is `None` exactly where the selector is refused, and
/// otherwise holds the text of each selected element, in the order of
/// selection; the same document and selector always give the same result.
/// A document that is too long for the parser's buffers is left out: on
/// such a one `Html::parse_document` panics.
#[verifier::external_body]
pub(crate) fn select_texts(html: &str, selector: &str) -> (r: Option<Vec<String>>)
    requires
        fits_parser(html),
    ensures
        match r {
            Some(found) => selected_texts(html@, selector@) == Some(texts(found@)),
            None => selected_texts(html@, selector@) is None,
        },
{
    let selector = scraper::Selector::parse(selector).ok()?;
    let document = scraper::Html::parse_document(html);
    Some(document.select(&selector).map(|element| element.text().collect::<String>()).collect())
}

} // verus!
