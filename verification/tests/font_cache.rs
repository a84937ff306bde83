use typst_engine::fonts::FontCache;

#[test]
fn bundled_fonts_parse_to_a_nonempty_face_list() {
    let cache = FontCache::load();
    assert!(cache.font_count() > 0);
    assert!(cache.font(0).is_some());
}

#[test]
fn face_lookup_is_none_exactly_out_of_range() {
    let cache = FontCache::load();
    let n = cache.font_count();
    assert!(cache.font(n - 1).is_some());
    assert!(cache.font(n).is_none());
    assert!(cache.font(usize::MAX).is_none());
}

#[test]
fn empty_bundle_yields_an_empty_cache() {
    let cache = FontCache::load_from(Vec::new());
    assert_eq!(cache.font_count(), 0);
    assert!(cache.font(0).is_none());
}

#[test]
fn unparsable_binary_yields_no_faces() {
    let datas: Vec<&'static [u8]> = vec![b"not a font binary"];
    let cache = FontCache::load_from(datas);
    assert_eq!(cache.font_count(), 0);
}

#[test]
fn loading_again_yields_the_same_face_count() {
    let first = FontCache::load();
    let second = FontCache::load();
    assert_eq!(first.font_count(), second.font_count());
}
