//! The trusted boundary to the HTML engine: parsing a document, compiling
//! a CSS selector, and running a selector over the document tree.

use vstd::prelude::*;

verus! {

#[verifier::external_type_specification]
#[verifier::external_body]
pub struct ExHtml(scraper::Html);

#[verifier::external_type_specification]
#[verifier::external_body]
pub struct ExSelector(scraper::Selector);

/// Whether a pattern is a syntactically valid CSS selector group, as the
/// selector engine's grammar has it.
pub uninterp spec fn selector_ok(pattern: Seq<char>) -> bool;

/// What a compiled `scraper::Selector` holds: the pattern it was compiled
/// from.
pub uninterp spec fn selector_pattern(sel: scraper::Selector) -> Seq<char>;

/// What a parsed `scraper::Html` holds: the source text it was parsed
/// from.  Parsing is permissive and never fails, so the document is a
/// function of that text alone.
pub uninterp spec fn doc_source(doc: scraper::Html) -> Seq<char>;

/// The text of every node of the parsed document that matches the
/// pattern, in document order.  Each entry is the concatenated text
/// content of the node and all its descendants, with nothing added and
/// nothing trimmed.
pub uninterp spec fn selected_texts(source: Seq<char>, pattern: Seq<char>) -> Seq<Seq<char>>;

/// Relies on `scraper::Selector::parse`: it compiles a CSS selector
/// group, succeeding exactly on syntactically valid patterns, and its
/// result depends on the pattern alone.
#[verifier::external_body]
pub(crate) fn compile_selector(pattern: &str) -> (r: Result<scraper::Selector, String>)
    ensures
        r is Ok <==> selector_ok(pattern@),
        r is Ok ==> selector_pattern(r->Ok_0) == pattern@,
{
    scraper::Selector::parse(pattern).map_err(|e| e.to_string())
}

/// Relies on `scraper::Html::parse_document`: it applies the standard
/// HTML error-recovery rules, always yields a tree, and the tree depends
/// on the source text alone.
#[verifier::external_body]
pub(crate) fn parse_document(html: &str) -> (d: scraper::Html)
    ensures
        doc_source(d) == html@,
{
    scraper::Html::parse_document(html)
}

/// Relies on `scraper::Html::select`: it yields the matching elements of
/// the tree in document order; each is handed out as its concatenated
/// descendant text (`scraper::ElementRef::text`).
#[verifier::external_body]
pub(crate) fn select_texts(doc: &scraper::Html, sel: &scraper::Selector) -> (r: Vec<String>)
    ensures
        r.deep_view() == selected_texts(doc_source(*doc), selector_pattern(*sel)),
{
    doc.select(sel).map(|e| e.text().collect::<String>()).collect()
}

} // verus!
