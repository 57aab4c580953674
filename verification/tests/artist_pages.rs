use basscoast_web::artists::{artist_detail_reply, field_markup, list_artists_reply, merge_metadata, ArtistDetail, ArtistList};
use basscoast_web::models::{Artist, ArtistAppearance, ArtistMerge, ArtistMetadata, ArtistRename, UserMTGSelection};
use basscoast_web::reply::Reply;

fn artist(id: &str, name: &str) -> Artist {
    Artist { id: id.to_string(), name: name.to_string(), created_at: "2024-01-01".to_string() }
}

fn html(r: Reply) -> (u16, String) {
    match r {
        Reply::Html { status, body } => (status, body),
        other => panic!("not html: {:?}", other),
    }
}

#[test]
fn artist_dropdown_applies_user_edits() {
    let list = ArtistList {
        artists: vec![artist("a1", "Alpha"), artist("a2", "Beta"), artist("a3", "Gamma")],
        renames: vec![
            ArtistRename { artist_id: "a1".to_string(), new_name: Some("Newest".to_string()) },
            ArtistRename { artist_id: "a1".to_string(), new_name: Some("Oldest".to_string()) },
            ArtistRename { artist_id: "a3".to_string(), new_name: None },
        ],
        deletes: vec!["a2".to_string()],
        merges: vec![],
        saved: vec!["a3".to_string()],
    };
    let (status, body) = html(list_artists_reply(Some(list)));
    assert_eq!(status, 200);
    assert_eq!(
        body,
        "<option value=\"\">Choose an artist...</option>\n\
         <option value=\"a1\" data-saved=\"false\">Newest</option>\n\
         <option value=\"a3\" data-saved=\"true\">Gamma</option>"
    );
}

#[test]
fn artist_dropdown_hides_merged_artists() {
    let list = ArtistList {
        artists: vec![artist("a1", "Alpha"), artist("a2", "Alpha (dup)"), artist("a3", "Gamma"), artist("a4", "Delta")],
        renames: vec![ArtistRename { artist_id: "a1".to_string(), new_name: None }],
        deletes: vec![],
        merges: vec![
            ArtistMerge { artist_id: "a2".to_string(), merge_into: Some("a1".to_string()) },
            ArtistMerge { artist_id: "a3".to_string(), merge_into: Some("a3".to_string()) },
            ArtistMerge { artist_id: "a4".to_string(), merge_into: None },
        ],
        saved: vec![],
    };
    let (_, body) = html(list_artists_reply(Some(list)));
    assert_eq!(
        body,
        "<option value=\"\">Choose an artist...</option>\n\
         <option value=\"a1\" data-saved=\"false\">Alpha</option>\n\
         <option value=\"a3\" data-saved=\"false\">Gamma</option>\n\
         <option value=\"a4\" data-saved=\"false\">Delta</option>"
    );
}

#[test]
fn artist_dropdown_when_artists_cannot_be_read() {
    assert_eq!(
        html(list_artists_reply(None)),
        (500, "<p><option>Error loading artists</option></p>".to_string())
    );
}

#[test]
fn artist_dropdown_with_no_artists() {
    let list = ArtistList { artists: vec![], renames: vec![], deletes: vec![], merges: vec![], saved: vec![] };
    assert_eq!(
        html(list_artists_reply(Some(list))),
        (200, "<option value=\"\">Choose an artist...</option>".to_string())
    );
}

fn detail(meta: Option<ArtistMetadata>, user_json: Option<&str>, rename: Option<Option<&str>>) -> ArtistDetail {
    ArtistDetail {
        artist: artist("a7", "Original"),
        appearances: vec![
            ArtistAppearance { id: Some(1), artist_id: "a7".to_string(), year: "2019".to_string() },
            ArtistAppearance { id: Some(2), artist_id: "a7".to_string(), year: "2023".to_string() },
        ],
        metadata: meta,
        saved_card: Some(UserMTGSelection {
            id: 5,
            user_id: 1,
            artist_id: "a7".to_string(),
            scryfall_id: "card-9".to_string(),
            created_at: String::new(),
            updated_at: String::new(),
        }),
        latest_rename: rename.map(|r| r.map(|s| s.to_string())),
        user_metadata_json: user_json.map(|s| s.to_string()),
    }
}

fn field(key: &str, value: &str, deletable: bool) -> String {
    let delete_button = if deletable {
        r#"<button class="delete-field-btn" title="Delete field">×</button>"#
    } else {
        ""
    };
    format!(
        r#"<div class="metadata-field" data-field-name="{}">
                <label>{}</label>
                <input type="text" class="metadata-input" data-field="{}" value="{}">
                {}
            </div>"#,
        key, key, key, value, delete_button
    )
}

#[test]
fn detail_panel_shows_rename_appearances_and_card() {
    let (status, body) = html(artist_detail_reply(Some(detail(None, None, Some(Some("Renamed"))))));
    assert_eq!(status, 200);
    assert!(body.starts_with(
        r#"<div class="artist-info" data-artist-id="a7" data-original-name="Renamed" data-saved-card="card-9">"#
    ));
    assert!(body.contains(r#"value="Renamed""#));
    assert!(body.contains("<tbody><tr><td>2019</td></tr><tr><td>2023</td></tr></tbody></table></div>"));
    assert!(body.contains(r#"<div hx-get="/artists/a7/mtg/recommendations""#));
    assert!(body.contains(r#"<input type="hidden" name="artist_id" value="a7">"#));
    assert!(body.ends_with("</div><!-- Close artist-info -->\n        "));
    assert!(!body.contains(r#"data-field="tags""#));
}

#[test]
fn detail_panel_uses_own_name_without_rename() {
    let (_, body) = html(artist_detail_reply(Some(detail(None, None, Some(None)))));
    assert!(body.contains(r#"data-original-name="Original""#));
    let (_, body) = html(artist_detail_reply(Some(detail(None, None, None))));
    assert!(body.contains(r#"data-original-name="Original""#));
}

#[test]
fn detail_panel_merges_metadata() {
    let meta = ArtistMetadata {
        artist_id: "a7".to_string(),
        found_musicbrainz: 1,
        found_discogs: 0,
        found_lastfm: 0,
        tags: Some(r#"["house","techno"]"#.to_string()),
        area: Some("Vancouver".to_string()),
        artist_type: None,
    };
    let user = r#"{"location":"Victoria \"BC\"","genre":"bass","plays":3}"#;
    let (_, body) = html(artist_detail_reply(Some(detail(Some(meta), Some(user), None))));
    let expected = format!(
        "{}{}{}",
        field("tags", "house, techno", false),
        field("location", "Victoria &quot;BC&quot;", false),
        field("genre", "bass", true)
    );
    assert!(body.contains(&expected), "{}", body);
    assert!(!body.contains("plays"));
}

#[test]
fn detail_panel_ignores_user_metadata_that_is_not_an_object() {
    let meta = ArtistMetadata {
        artist_id: "a7".to_string(),
        found_musicbrainz: 1,
        found_discogs: 0,
        found_lastfm: 0,
        tags: Some("not json".to_string()),
        area: None,
        artist_type: None,
    };
    let (_, body) = html(artist_detail_reply(Some(detail(Some(meta), Some("[1,2]"), None))));
    assert!(body.contains(&field("tags", "not json", false)));
}

#[test]
fn detail_panel_for_missing_artist() {
    assert_eq!(html(artist_detail_reply(None)), (404, "<p>Artist not found</p>".to_string()));
}

#[test]
fn metadata_merge_keeps_order_and_overrides() {
    let meta = Some(ArtistMetadata {
        artist_id: "a".to_string(),
        found_musicbrainz: 1,
        found_discogs: 0,
        found_lastfm: 0,
        tags: Some("[]".to_string()),
        area: Some("Here".to_string()),
        artist_type: None,
    });
    let fields = vec![
        ("genre".to_string(), Some("dnb".to_string())),
        ("location".to_string(), Some("There".to_string())),
        ("count".to_string(), None),
        ("genre".to_string(), Some("jungle".to_string())),
    ];
    let merged = merge_metadata(&meta, Some(fields));
    let expected: Vec<(String, String)> = vec![
        ("tags".to_string(), "[]".to_string()),
        ("location".to_string(), "There".to_string()),
        ("genre".to_string(), "jungle".to_string()),
    ];
    assert_eq!(merged, expected);
    assert_eq!(merge_metadata(&None, None), Vec::<(String, String)>::new());
}

#[test]
fn field_markup_shows_tag_lists() {
    let tags = field_markup(&"tags".to_string(), &"raw".to_string(), Some(vec!["a".to_string(), "b\"c".to_string()]));
    assert_eq!(tags, field("tags", "a, b&quot;c", false));
    let tags_unparsed = field_markup(&"tags".to_string(), &"raw".to_string(), None);
    assert_eq!(tags_unparsed, field("tags", "raw", false));
    let other = field_markup(&"genre".to_string(), &"x".to_string(), Some(vec!["ignored".to_string()]));
    assert_eq!(other, field("genre", "x", true));
}

#[test]
fn imported_tags_are_shown_as_a_list() {
    let stored = basscoast_web::enrich::import_tags_json(Some(vec!["house".to_string(), "dub \"techno\"".to_string()]));
    let meta = ArtistMetadata {
        artist_id: "a7".to_string(),
        found_musicbrainz: 1,
        found_discogs: 0,
        found_lastfm: 0,
        tags: stored,
        area: None,
        artist_type: None,
    };
    let (_, body) = html(artist_detail_reply(Some(detail(Some(meta), None, None))));
    assert!(body.contains(&field("tags", "house, dub &quot;techno&quot;", false)));
}
