use mathsvg::fonts::{load_fonts, FontRegistry};

#[test]
fn bundled_fonts_are_loaded() {
    let registry = load_fonts().expect("the bundled fonts must decode");
    assert!(registry.font_count() > 0);
    assert!(registry.font(0).is_some());
}

#[test]
fn font_lookup_past_the_end_is_no_value() {
    let registry = load_fonts().expect("the bundled fonts must decode");
    let count = registry.font_count();
    assert!(registry.font(count).is_none());
    assert!(registry.font(count + 1).is_none());
    assert!(registry.font(usize::MAX).is_none());
}

#[test]
fn every_listed_font_resolves() {
    let registry = load_fonts().expect("the bundled fonts must decode");
    for index in 0..registry.font_count() {
        assert!(registry.font(index).is_some());
    }
}

#[test]
fn empty_blob_list_builds_an_empty_registry() {
    let blobs: Vec<&[u8]> = Vec::new();
    let registry = match FontRegistry::from_blobs(&blobs) {
        Ok(registry) => registry,
        Err(_) => panic!("an empty list holds no undecodable blob"),
    };
    assert_eq!(registry.font_count(), 0);
    assert!(registry.font(0).is_none());
}

#[test]
fn undecodable_blob_is_a_fatal_condition() {
    let junk = [0u8, 1, 2, 3];
    let bundled: Vec<&[u8]> = typst_assets::fonts().collect();
    let blobs: Vec<&[u8]> = vec![bundled[0], &junk];
    match FontRegistry::from_blobs(&blobs) {
        Ok(_) => panic!("a blob that decodes to no face must be reported"),
        Err(index) => assert_eq!(index, 1),
    }
}
