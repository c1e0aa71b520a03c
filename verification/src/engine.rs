//! Declarations of the typesetting engine's types that appear in this
//! library's signatures and fields. Each is opaque here: the library carries
//! such values through and speaks of them only via named spec functions.

use vstd::prelude::*;

verus! {

#[verifier::external_type_specification]
#[verifier::external_body]
pub struct ExFileId(typst::syntax::FileId);

#[verifier::external_type_specification]
#[verifier::external_body]
pub struct ExSource(typst::syntax::Source);

#[verifier::external_type_specification]
#[verifier::external_body]
pub struct ExFont(typst::text::Font);

#[verifier::external_type_specification]
#[verifier::external_body]
pub struct ExFontBook(typst::text::FontBook);

#[verifier::external_type_specification]
#[verifier::external_body]
pub struct ExFontInfo(typst::text::FontInfo);

#[verifier::external_type_specification]
#[verifier::external_body]
pub struct ExBytes(typst::foundations::Bytes);

#[verifier::external_type_specification]
#[verifier::external_body]
pub struct ExLibrary(typst::Library);

#[verifier::external_type_specification]
#[verifier::external_body]
pub struct ExFileError(typst::diag::FileError);

#[verifier::external_type_specification]
#[verifier::external_body]
pub struct ExPagedDocument(typst_library::layout::PagedDocument);

#[verifier::external_type_specification]
#[verifier::external_body]
pub struct ExPage(typst_library::layout::Page);

/// Relies on the derived Clone of typst::text::Font, which clones a shared
/// handle to the same font data.
pub assume_specification[ <typst::text::Font as Clone>::clone ](
    font: &typst::text::Font,
) -> (r: typst::text::Font)
    ensures
        r == *font,
;

/// Relies on the derived Clone of typst::syntax::Source, which clones a
/// shared handle to the same file content.
pub assume_specification[ <typst::syntax::Source as Clone>::clone ](
    source: &typst::syntax::Source,
) -> (r: typst::syntax::Source)
    ensures
        r == *source,
;

} // verus!
