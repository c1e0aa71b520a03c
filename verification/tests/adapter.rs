use mathsvg::render::render_outcome;
use mathsvg::template::{join_messages, wrap_expression};
use typst_library::layout::PagedDocument;

#[test]
fn wraps_expression_in_template() {
    let text = wrap_expression("x^2");
    assert_eq!(
        text,
        "#set page(width: auto, height: auto, margin: 0.5em)\n#set text(size: 16pt)\n$x^2$"
    );
}

#[test]
fn wraps_empty_expression() {
    let text = wrap_expression("");
    assert_eq!(
        text,
        "#set page(width: auto, height: auto, margin: 0.5em)\n#set text(size: 16pt)\n$$"
    );
}

#[test]
fn joins_no_messages_to_empty() {
    let msgs: Vec<String> = Vec::new();
    assert_eq!(join_messages(&msgs), "");
}

#[test]
fn joins_one_message_verbatim() {
    let msgs = vec![String::from("unknown variable: qqq")];
    assert_eq!(join_messages(&msgs), "unknown variable: qqq");
}

#[test]
fn joins_messages_in_order() {
    let msgs = vec![
        String::from("first"),
        String::from("second"),
        String::from("third"),
    ];
    assert_eq!(join_messages(&msgs), "first; second; third");
}

#[test]
fn pageless_document_yields_fixed_message() {
    let empty = PagedDocument::default();
    let r = render_outcome(Ok(empty));
    assert_eq!(r, Err(String::from("No pages in document")));
}

#[test]
fn diagnostics_yield_joined_error() {
    let outcome: Result<PagedDocument, Vec<String>> =
        Err(vec![String::from("bad"), String::from("worse")]);
    let r = render_outcome(outcome);
    assert_eq!(r, Err(String::from("bad; worse")));
}
