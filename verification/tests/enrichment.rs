use basscoast_web::enrich::{
    artists_to_process, enrich_step, import_tags_json, merged_tags, musicbrainz_query, tags_json, EnrichStats,
    LookupOutcome,
};

fn strings(v: &[&str]) -> Vec<String> {
    v.iter().map(|s| s.to_string()).collect()
}

#[test]
fn how_many_artists() {
    assert_eq!(artists_to_process(10, None), 10);
    assert_eq!(artists_to_process(10, Some(3)), 3);
    assert_eq!(artists_to_process(2, Some(3)), 2);
}

#[test]
fn progress_and_pauses() {
    let s0 = enrich_step(0);
    assert!(s0.report_progress && !s0.pause_first);
    let s1 = enrich_step(1);
    assert!(!s1.report_progress && s1.pause_first);
    let s9 = enrich_step(9);
    assert!(s9.report_progress && s9.pause_first);
    assert!(enrich_step(19).report_progress);
    assert!(!enrich_step(10).report_progress);
}

#[test]
fn lookup_query() {
    assert_eq!(musicbrainz_query("Bonobo"), "artist:\"Bonobo\"");
}

#[test]
fn tags_are_genres_then_tags() {
    assert_eq!(merged_tags(strings(&["house"]), Some(strings(&["deep", "uk"]))), strings(&["house", "deep", "uk"]));
    assert_eq!(merged_tags(strings(&["house"]), None), strings(&["house"]));
    assert_eq!(tags_json(&vec![]), None);
    assert_eq!(tags_json(&strings(&["a\"b", "c"])), Some(r#"["a\"b","c"]"#.to_string()));
    assert_eq!(import_tags_json(Some(strings(&["x"]))), Some(r#"["x"]"#.to_string()));
    assert_eq!(import_tags_json(None), None);
}

#[test]
fn statistics() {
    let mut s = EnrichStats::new();
    s.record(LookupOutcome::Found { has_tags: true });
    s.record(LookupOutcome::Found { has_tags: false });
    s.record(LookupOutcome::NotFound);
    s.record(LookupOutcome::Failed);
    assert_eq!((s.processed, s.found_musicbrainz, s.total_with_tags), (4, 2, 1));
}

#[test]
fn tag_text_escapes_like_serde_json() {
    let tricky = strings(&["tab\there", "back\\slash", "nl\n", "bell\u{7}", "del\u{7f}", "é😀", ""]);
    assert_eq!(import_tags_json(Some(tricky.clone())), Some(serde_json::to_string(&tricky).unwrap()));
    assert_eq!(
        import_tags_json(Some(strings(&["\u{1}\u{8}\u{c}\r\u{1f}"]))),
        Some(r#"["\u0001\b\f\r\u001f"]"#.to_string())
    );
    assert_eq!(import_tags_json(Some(vec![])), Some("[]".to_string()));
}
