//! The font registry: the process's fixed font collection, decoded once from
//! the embedded assets into a catalog of font metadata (the "book") and a
//! list of font faces at matching positions.

use vstd::prelude::*;
use typst::text::{Font, FontBook, FontInfo};

verus! {

/// The entries of a font catalog, in the order they were pushed.
pub uninterp spec fn book_infos(book: FontBook) -> Seq<FontInfo>;

/// A font face's descriptive metadata, a function of the face alone.
pub uninterp spec fn info_of(font: Font) -> FontInfo;

/// The font faces decoded from one embedded blob, in order.
pub uninterp spec fn blob_fonts(data: Seq<u8>) -> Seq<Font>;

/// The bundled font blobs in their fixed order: the list typst_assets::fonts
/// yields, a constant of the build, so the argument is immaterial.
pub uninterp spec fn asset_blobs(any: int) -> Seq<Seq<u8>>;

/// The byte sequences of a list of blobs.
pub open spec fn blob_views(blobs: Seq<&[u8]>) -> Seq<Seq<u8>> {
    blobs.map_values(|b: &[u8]| b@)
}

/// All faces of a sequence of blobs, blob by blob, in order.
pub open spec fn flat_fonts(blobs: Seq<Seq<u8>>) -> Seq<Font>
    decreases blobs.len(),
{
    if blobs.len() == 0 {
        Seq::empty()
    } else {
        blob_fonts(blobs[0]) + flat_fonts(blobs.drop_first())
    }
}

proof fn lemma_flat_push(blobs: Seq<Seq<u8>>, blob: Seq<u8>)
    ensures
        flat_fonts(blobs.push(blob)) == flat_fonts(blobs) + blob_fonts(blob),
    decreases blobs.len(),
{
    let pushed = blobs.push(blob);
    if blobs.len() == 0 {
        assert(pushed[0] == blob);
        assert(pushed.drop_first() =~= Seq::<Seq<u8>>::empty());
        assert(flat_fonts(pushed) =~= blob_fonts(blob) + flat_fonts(Seq::empty()));
        assert(blob_fonts(blob) + Seq::<Font>::empty() =~= blob_fonts(blob));
        assert(flat_fonts(blobs) + blob_fonts(blob) =~= blob_fonts(blob));
    } else {
        assert(pushed[0] == blobs[0]);
        assert(pushed.drop_first() =~= blobs.drop_first().push(blob));
        lemma_flat_push(blobs.drop_first(), blob);
        assert(blob_fonts(blobs[0]) + (flat_fonts(blobs.drop_first()) + blob_fonts(blob))
            =~= (blob_fonts(blobs[0]) + flat_fonts(blobs.drop_first())) + blob_fonts(blob));
    }
}

/// Relies on typst_assets::fonts: the embedded font blobs, in their fixed
/// bundled order. No filesystem or network access is involved.
#[verifier::external_body]
fn asset_font_blobs() -> (r: Vec<&'static [u8]>)
    ensures
        blob_views(r@) == asset_blobs(0),
{
    typst_assets::fonts().collect()
}

/// Relies on typst::text::Font::iter: every font face the given blob
/// contains, in order. A malformed blob yields no faces rather than failing.
#[verifier::external_body]
fn fonts_in_blob(data: &[u8]) -> (r: Vec<Font>)
    ensures
        r@ == blob_fonts(data@),
{
    Font::iter(typst::foundations::Bytes::new(data.to_vec())).collect()
}

/// Relies on typst::text::FontBook::new: a catalog with no entries.
#[verifier::external_body]
fn new_book() -> (r: FontBook)
    ensures
        book_infos(r) == Seq::<FontInfo>::empty(),
{
    FontBook::new()
}

/// Relies on typst::text::FontBook::push: appends one font's metadata at the
/// catalog's next index.
#[verifier::external_body]
fn book_push(book: &mut FontBook, info: FontInfo)
    ensures
        book_infos(*final(book)) == book_infos(*old(book)).push(info),
{
    book.push(info);
}

/// Relies on typst::text::Font::info: the face's metadata, a function of the
/// face alone; the returned reference is cloned into an owned value.
#[verifier::external_body]
fn font_info(font: &Font) -> (r: FontInfo)
    ensures
        r == info_of(*font),
{
    font.info().clone()
}

/// The process-wide font collection: a catalog of font metadata and the font
/// faces themselves, where the entry at each catalog index describes the face
/// at the same position of the list.
pub struct FontRegistry {
    book: FontBook,
    fonts: Vec<Font>,
}

impl FontRegistry {
    /// The font faces, in order.
    pub closed spec fn faces(self) -> Seq<Font> {
        self.fonts@
    }

    /// The catalog entries, in order.
    pub closed spec fn catalog(self) -> Seq<FontInfo> {
        book_infos(self.book)
    }

    /// Index parity: the catalog holds exactly the metadata of the faces, at
    /// the same positions.
    pub open spec fn catalog_matches(self) -> bool {
        self.catalog() == self.faces().map_values(|f: Font| info_of(f))
    }

    /// Decodes every blob and appends each face it contains to the list while
    /// appending the face's metadata to the catalog at the same index. A blob
    /// that decodes to no face at all is undecodable: its position is
    /// returned as the error, and no registry is built.
    pub fn from_blobs(blobs: &Vec<&[u8]>) -> (r: Result<FontRegistry, usize>)
        ensures
            r is Ok <==> (forall|k: int|
                0 <= k < blob_views(blobs@).len() ==> blob_fonts(blob_views(blobs@)[k]).len()
                    > 0),
            r is Ok ==> r->Ok_0.catalog_matches(),
            r is Ok ==> r->Ok_0.faces() == flat_fonts(blob_views(blobs@)),
            r is Err ==> r->Err_0 < blob_views(blobs@).len() && blob_fonts(
                blob_views(blobs@)[r->Err_0 as int],
            ).len() == 0,
    {
        let ghost views = blob_views(blobs@);
        let mut book = new_book();
        let mut fonts: Vec<Font> = Vec::new();
        let mut i: usize = 0;
        while i < blobs.len()
            invariant
                i <= blobs.len(),
                views == blob_views(blobs@),
                fonts@ == flat_fonts(views.take(i as int)),
                book_infos(book) == fonts@.map_values(|f: Font| info_of(f)),
                forall|k: int| 0 <= k < i ==> blob_fonts(views[k]).len() > 0,
            decreases blobs.len() - i,
        {
            let blob_faces = fonts_in_blob(blobs[i]);
            let ghost face_seq = blob_fonts(views[i as int]);
            assert(blob_faces@ == face_seq);
            if blob_faces.len() == 0 {
                return Err(i);
            }
            let mut j: usize = 0;
            while j < blob_faces.len()
                invariant
                    j <= blob_faces.len(),
                    blob_faces@ == face_seq,
                    fonts@ == flat_fonts(views.take(i as int)) + face_seq.take(j as int),
                    book_infos(book) == fonts@.map_values(|f: Font| info_of(f)),
                decreases blob_faces.len() - j,
            {
                let face = blob_faces[j].clone();
                book_push(&mut book, font_info(&face));
                fonts.push(face);
                proof {
                    assert(face_seq.take(j as int).push(face) =~= face_seq.take(j + 1 as int));
                    assert(flat_fonts(views.take(i as int)) + face_seq.take(j + 1 as int)
                        =~= (flat_fonts(views.take(i as int)) + face_seq.take(j as int)).push(
                        face));
                    assert(fonts@.map_values(|f: Font| info_of(f)) =~= fonts@.drop_last()
                        .map_values(|f: Font| info_of(f)).push(info_of(face)));
                }
                j = j + 1;
            }
            proof {
                assert(face_seq.take(j as int) =~= face_seq);
                assert(views.take(i as int).push(views[i as int]) =~= views.take(i + 1 as int));
                lemma_flat_push(views.take(i as int), views[i as int]);
            }
            i = i + 1;
        }
        proof {
            assert(views.take(blobs@.len() as int) =~= views);
        }
        Ok(FontRegistry { book, fonts })
    }

    /// The catalog, for the compiler's metadata queries.
    pub fn book(&self) -> (r: &FontBook)
        ensures
            book_infos(*r) == self.catalog(),
    {
        &self.book
    }

    /// How many faces the registry holds.
    pub fn font_count(&self) -> (r: usize)
        ensures
            r == self.faces().len(),
    {
        self.fonts.len()
    }

    /// The face at the given position of the list, or no value when the index
    /// is at or beyond the list's size. Never fails.
    pub fn font(&self, index: usize) -> (r: Option<Font>)
        ensures
            r is Some <==> index < self.faces().len(),
            index < self.faces().len() ==> r == Some(self.faces()[index as int]),
    {
        if index < self.fonts.len() {
            Some(self.fonts[index].clone())
        } else {
            None
        }
    }
}

/// Builds the registry from the bundled font assets: every face of every
/// bundled blob, in bundled order, with the catalog in matching order.
/// Malformed embedded font data is a fatal startup condition, not a per-call
/// error: when some bundled blob decodes to no face, its position is
/// returned and the caller must abort rather than continue with a partial
/// collection.
pub fn load_fonts() -> (r: Result<FontRegistry, usize>)
    ensures
        r is Ok <==> (forall|k: int|
            0 <= k < asset_blobs(0).len() ==> blob_fonts(asset_blobs(0)[k]).len() > 0),
        r is Ok ==> r->Ok_0.catalog_matches(),
        r is Ok ==> r->Ok_0.faces() == flat_fonts(asset_blobs(0)),
        r is Err ==> r->Err_0 < asset_blobs(0).len() && blob_fonts(
            asset_blobs(0)[r->Err_0 as int],
        ).len() == 0,
{
    let blobs = asset_font_blobs();
    FontRegistry::from_blobs(&blobs)
}

/// Index parity between catalog and font list is a hard invariant: the
/// catalog and the list have the same length, and the entry at any index
/// describes the face at that index.
pub proof fn lemma_catalog_parity(r: FontRegistry)
    requires
        r.catalog_matches(),
    ensures
        r.catalog().len() == r.faces().len(),
        forall|i: int| 0 <= i < r.faces().len() ==> r.catalog()[i] == info_of(r.faces()[i]),
{
}

/// Building the registry from the same blobs always yields the same font
/// list and the same catalog: initialization is idempotent, and every caller
/// observes one and the same collection.
pub proof fn lemma_build_deterministic(a: FontRegistry, b: FontRegistry, blobs: Seq<Seq<u8>>)
    requires
        a.catalog_matches(),
        a.faces() == flat_fonts(blobs),
        b.catalog_matches(),
        b.faces() == flat_fonts(blobs),
    ensures
        a.faces() == b.faces(),
        a.catalog() == b.catalog(),
{
}

} // verus!
