use basscoast_web::mtg::build_search_query;

#[test]
fn test_build_search_query() {
    let cmc = format!("{}", 3.0f64);
    let query = build_search_query(
        Some("uncommon"),
        Some("U,B"),
        Some(cmc.as_str()),
        Some("artifact"),
        Some("flying"),
    );
    assert!(query.contains("rarity:uncommon"));
    assert!(query.contains("color:U"));
    assert!(query.contains("color:B"));
    assert!(query.contains("cmc=3"));
    assert!(query.contains("artifact"));
    assert!(query.contains("keyword:flying"));
}

#[test]
fn query_terms_come_in_order() {
    let query = build_search_query(Some("uncommon"), Some("U,B"), Some("3"), Some("artifact"), Some("flying"));
    assert_eq!(query, "rarity:uncommon color:U color:B cmc=3 keyword:flying artifact");
}

#[test]
fn query_without_filters_is_empty() {
    assert_eq!(build_search_query(None, None, None, None, None), "");
    assert_eq!(build_search_query(Some(""), Some(""), None, Some(""), Some("")), "");
}

#[test]
fn query_colors_are_trimmed() {
    assert_eq!(build_search_query(None, Some(" U ,\tB\u{3000}"), None, None, None), "color:U color:B");
}

#[test]
fn query_keeps_empty_color_pieces() {
    assert_eq!(build_search_query(None, Some(","), None, None, None), "color: color:");
}

#[test]
fn query_with_mana_value_only() {
    let cmc = format!("{}", 2.5f64);
    assert_eq!(build_search_query(None, None, Some(cmc.as_str()), None, None), "cmc=2.5");
}

#[test]
fn query_free_text_last() {
    assert_eq!(build_search_query(Some("rare"), None, None, Some("o:draw o:card"), None), "rarity:rare o:draw o:card");
}
