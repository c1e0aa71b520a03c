//! The document context: exactly one synthesized source file per call, a
//! default library configuration, and the file-resolution decisions the
//! compiler's queries depend on. Every identifier other than the synthesized
//! source's own must fail to resolve, binary files never resolve, and no
//! current date is ever supplied.

use vstd::prelude::*;
use typst::diag::FileError;
use typst::foundations::Bytes;
use typst::syntax::{FileId, Source};
use typst::Library;
use crate::template::{wrap_expression, wrapped_source};

verus! {

/// The text a source file holds, a function of the source alone.
pub uninterp spec fn source_text(source: Source) -> Seq<char>;

/// The identifier of a source file, a function of the source alone.
pub uninterp spec fn source_id(source: Source) -> FileId;

/// The "file not found" error raised for the given identifier.
pub uninterp spec fn file_not_found(id: FileId) -> FileError;

/// The default library configuration: what typst::Library::builder builds
/// with no customization, a constant, so the argument is immaterial.
pub uninterp spec fn default_config(any: int) -> Library;

/// Relies on typst::syntax::Source::detached: a source file holding exactly
/// the given text.
#[verifier::external_body]
fn detached_source(text: &str) -> (r: Source)
    ensures
        source_text(r) == text@,
{
    Source::detached(text)
}

/// Relies on typst::syntax::Source::id: the source's own identifier.
#[verifier::external_body]
fn source_file_id(source: &Source) -> (r: FileId)
    ensures
        r == source_id(*source),
{
    source.id()
}

/// Relies on the derived PartialEq of typst::syntax::FileId, which compares
/// the interned identifiers for equality.
#[verifier::external_body]
fn file_id_eq(a: FileId, b: FileId) -> (r: bool)
    ensures
        r == (a == b),
{
    a == b
}

/// Relies on typst::diag::FileError::NotFound, carrying the identifier's
/// rootless virtual path.
#[verifier::external_body]
fn not_found(id: FileId) -> (r: FileError)
    ensures
        r == file_not_found(id),
{
    FileError::NotFound(id.vpath().as_rootless_path().into())
}

/// Relies on typst::Library::builder: the default library configuration,
/// with no inputs, no extra features and no customization.
#[verifier::external_body]
fn default_library() -> (r: Library)
    ensures
        r == default_config(0),
{
    Library::builder().build()
}

/// The capability set one compilation works against: the synthesized source
/// under its identifier, and a default library configuration. Built fresh
/// per call; nothing persists across calls.
pub struct MathWorld {
    library: Library,
    source: Source,
    main: FileId,
}

impl MathWorld {
    /// The one synthesized source of this context.
    pub closed spec fn main_source(self) -> Source {
        self.source
    }

    /// The identifier under which the synthesized source resolves.
    pub closed spec fn main_id(self) -> FileId {
        self.main
    }

    /// The library configuration handed to the compiler.
    pub closed spec fn config(self) -> Library {
        self.library
    }

    /// The context is well formed when the identifier it serves is the
    /// synthesized source's own.
    pub open spec fn wf(self) -> bool {
        self.main_id() == source_id(self.main_source())
    }

    /// Builds the context for one expression: the synthesized source is the
    /// fixed prologue with the expression between math-mode delimiters,
    /// embedded verbatim.
    pub fn new(math_content: &str) -> (r: MathWorld)
        ensures
            r.wf(),
            source_text(r.main_source()) == wrapped_source(math_content@),
            r.config() == default_config(0),
    {
        let text = wrap_expression(math_content);
        let source = detached_source(text.as_str());
        let main = source_file_id(&source);
        MathWorld { library: default_library(), source, main }
    }

    /// The library configuration.
    pub fn library(&self) -> (r: &Library)
        ensures
            *r == self.config(),
    {
        &self.library
    }

    /// The identifier of the main source file.
    pub fn main(&self) -> (r: FileId)
        ensures
            r == self.main_id(),
    {
        self.main
    }

    /// Resolves a source file: the synthesized source for its own
    /// identifier, and "file not found" for every other identifier.
    pub fn source(&self, id: FileId) -> (r: Result<Source, FileError>)
        ensures
            id == self.main_id() ==> r == Ok::<Source, FileError>(self.main_source()),
            id != self.main_id() ==> r == Err::<Source, FileError>(file_not_found(id)),
    {
        if file_id_eq(id, self.main) {
            Ok(self.source.clone())
        } else {
            Err(not_found(id))
        }
    }

    /// Resolves a binary file: always "file not found", for every
    /// identifier, since binary file loading is unsupported by design.
    pub fn file(&self, id: FileId) -> (r: Result<Bytes, FileError>)
        ensures
            r == Err::<Bytes, FileError>(file_not_found(id)),
    {
        Err(not_found(id))
    }

    /// The current date: always no value, whatever the offset, so that no
    /// rendered expression can depend on the time of the call.
    pub fn today<T>(&self, _offset: Option<i64>) -> (r: Option<T>)
        ensures
            r is None,
    {
        None
    }
}

/// Two contexts built for the same expression hold the same synthesized
/// source text: what the compiler reads depends on the expression alone,
/// with no hidden date, file or state dependency.
pub proof fn lemma_same_expression_same_source(a: MathWorld, b: MathWorld, expr: Seq<char>)
    requires
        source_text(a.main_source()) == wrapped_source(expr),
        source_text(b.main_source()) == wrapped_source(expr),
    ensures
        source_text(a.main_source()) == source_text(b.main_source()),
{
}

} // verus!
