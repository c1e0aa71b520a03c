//! The render decision: turning the compiler's outcome into the caller's
//! result. A paged document yields the serialization of its first page; a
//! document with no pages yields one fixed error text; diagnostics yield
//! their messages joined in order.

use vstd::prelude::*;
use vstd::string::StringExecFns;
use typst_library::layout::{Page, PagedDocument};
use crate::template::{join_messages, joined};

verus! {

/// The pages of a compiled document, in order.
pub uninterp spec fn doc_pages(doc: PagedDocument) -> Seq<Page>;

/// The serialization of one page, a function of the page alone.
pub uninterp spec fn page_svg(page: Page) -> Seq<char>;

/// The fixed error text for a document that compiled to no pages.
pub open spec fn no_pages_message() -> Seq<char> {
    "No pages in document"@
}

/// Relies on the pages field of typst_library::layout::PagedDocument and the
/// derived Clone of Page: the first page, when the document has one.
#[verifier::external_body]
fn first_page(doc: &PagedDocument) -> (r: Option<Page>)
    ensures
        r is Some <==> doc_pages(*doc).len() > 0,
        doc_pages(*doc).len() > 0 ==> r == Some(doc_pages(*doc)[0]),
{
    doc.pages.first().cloned()
}

/// Relies on typst_svg::svg: the vector-graphics serialization of one page,
/// a function of the page alone.
#[verifier::external_body]
fn page_to_svg(page: &Page) -> (r: String)
    ensures
        r@ == page_svg(*page),
{
    typst_svg::svg(page)
}

/// Decides the call's result from the compilation outcome. Success is owed
/// exactly when compilation produced at least one page; the result is then
/// the first page's serialization and nothing else. A pageless document
/// yields the fixed message, and diagnostics yield their messages joined
/// with `"; "` in their original order.
pub fn render_outcome(outcome: Result<PagedDocument, Vec<String>>) -> (r: Result<String, String>)
    ensures
        r is Ok <==> (outcome is Ok && doc_pages(outcome->Ok_0).len() > 0),
        outcome is Ok && doc_pages(outcome->Ok_0).len() > 0 ==> r->Ok_0@ == page_svg(
            doc_pages(outcome->Ok_0)[0],
        ),
        outcome is Ok && doc_pages(outcome->Ok_0).len() == 0 ==> r->Err_0@
            == no_pages_message(),
        outcome is Err ==> r->Err_0@ == joined(
            outcome->Err_0@.map_values(|m: String| m@),
        ),
{
    match outcome {
        Ok(document) => match first_page(&document) {
            Some(page) => Ok(page_to_svg(&page)),
            None => Err(String::from_str("No pages in document")),
        },
        Err(messages) => Err(join_messages(&messages)),
    }
}

} // verus!
