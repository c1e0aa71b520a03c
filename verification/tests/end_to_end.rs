use mathsvg::fonts::{load_fonts, FontRegistry};
use mathsvg::render::render_outcome;
use mathsvg::world::MathWorld;
use typst::diag::FileResult;
use typst::foundations::{Bytes, Datetime};
use typst::syntax::{FileId, Source};
use typst::text::{Font, FontBook};
use typst::utils::LazyHash;
use typst::{Library, World};
use typst_library::layout::PagedDocument;

struct TestWorld {
    library: LazyHash<Library>,
    book: LazyHash<FontBook>,
    registry: FontRegistry,
    world: MathWorld,
}

impl TestWorld {
    fn new(expression: &str) -> TestWorld {
        let registry = load_fonts().expect("the bundled fonts must decode");
        let world = MathWorld::new(expression);
        let library = LazyHash::new(world.library().clone());
        let book = LazyHash::new(registry.book().clone());
        TestWorld { library, book, registry, world }
    }
}

impl World for TestWorld {
    fn library(&self) -> &LazyHash<Library> {
        &self.library
    }

    fn book(&self) -> &LazyHash<FontBook> {
        &self.book
    }

    fn main(&self) -> FileId {
        self.world.main()
    }

    fn source(&self, id: FileId) -> FileResult<Source> {
        self.world.source(id)
    }

    fn file(&self, id: FileId) -> FileResult<Bytes> {
        self.world.file(id)
    }

    fn font(&self, index: usize) -> Option<Font> {
        self.registry.font(index)
    }

    fn today(&self, offset: Option<i64>) -> Option<Datetime> {
        self.world.today(offset)
    }
}

fn render(expression: &str) -> Result<String, String> {
    let world = TestWorld::new(expression);
    let result = typst::compile::<PagedDocument>(&world);
    let outcome = result
        .output
        .map_err(|errors| errors.iter().map(|e| e.message.to_string()).collect());
    render_outcome(outcome)
}

#[test]
fn valid_expression_renders_to_svg() {
    let svg = render("x^2+y^2=z^2").expect("a valid expression must render");
    assert!(!svg.is_empty());
    assert!(svg.starts_with("<svg"));
    assert!(svg.contains("width="));
    assert!(svg.contains("height="));
}

#[test]
fn rendering_is_deterministic() {
    let first = render("sum_(k=1)^n k = (n(n+1))/2");
    let second = render("sum_(k=1)^n k = (n(n+1))/2");
    assert_eq!(first, second);
    assert!(first.is_ok());
}

#[test]
fn unbalanced_expression_is_an_error_without_markup() {
    let err = render("\\frac{1}{0").expect_err("an unbalanced expression must fail");
    assert!(!err.is_empty());
    assert!(!err.contains("<svg"));
}

#[test]
fn undefined_symbol_reports_diagnostics() {
    let err = render("qqq + 1").expect_err("an undefined symbol must fail");
    assert!(!err.is_empty());
    assert!(err.contains("unknown variable"));
    assert!(!err.contains("<svg"));
}

#[test]
fn empty_expression_renders_an_empty_page() {
    let r = render("");
    let svg = r.expect("the empty expression must compile to a minimal page");
    assert!(!svg.is_empty());
    assert!(svg.starts_with("<svg"));
}
