use basscoast_web::mtg::{
    card_json_reply, card_url, community_picks_reply, pick_text, rate_limit_pause, search_error_reply,
    search_gate, search_results_reply, search_url, select_card_reply, CardSummary, CommunityPick, ImageUris,
};
use basscoast_web::reply::Reply;

fn card(id: &str, name: &str, rarity: &str, type_line: &str) -> CardSummary {
    CardSummary {
        id: id.to_string(),
        name: name.to_string(),
        rarity: rarity.to_string(),
        type_line: type_line.to_string(),
        image_uris: None,
    }
}

fn html(r: Reply) -> (u16, String) {
    match r {
        Reply::Html { status, body } => (status, body),
        other => panic!("not html: {:?}", other),
    }
}

#[test]
fn empty_query_asks_for_criteria() {
    assert_eq!(html(search_gate("").unwrap()), (200, "<li>Enter search criteria</li>".to_string()));
    assert!(search_gate("rarity:rare").is_none());
}

#[test]
fn search_results_list_cards() {
    let cards = vec![card("c1", "Lightning Bolt", "common", "Instant")];
    let (status, body) = html(search_results_reply(Ok(cards), Some("a9")));
    assert_eq!(status, 200);
    let expected = format!(
        r##"<li class="card-item" data-scryfall-id="{}" data-artist-id="{}">
                                {} ({})
                                <br><small>{}</small>
                            </li>"##,
        "c1", "a9", "Lightning Bolt", "common", "Instant"
    );
    assert_eq!(body, format!("<ul class=\"card-list\">{}</ul>", expected));
}

#[test]
fn search_results_without_artist() {
    let cards = vec![card("c1", "A", "rare", "Creature"), card("c2", "B", "mythic", "Land")];
    let (status, body) = html(search_results_reply(Ok(cards), None));
    assert_eq!(status, 200);
    let item = |id: &str, n: &str, r: &str, t: &str| {
        format!(
            r##"<li class="card-item" data-scryfall-id="{}">
                                {} ({})
                                <br><small>{}</small>
                            </li>"##,
            id, n, r, t
        )
    };
    let expected = format!(
        "<ul class=\"card-list\">{}\n{}</ul>",
        item("c1", "A", "rare", "Creature"),
        item("c2", "B", "mythic", "Land")
    );
    assert_eq!(body, expected);
}

#[test]
fn no_cards_found() {
    assert_eq!(html(search_results_reply(Ok(vec![]), None)), (200, "<li>No cards found</li>".to_string()));
}

#[test]
fn search_errors_are_classified() {
    assert_eq!(
        html(search_error_reply("Scryfall API error: 404 Not Found - {}")),
        (404, "<p><li>No cards found matching your search criteria</li></p>".to_string())
    );
    assert_eq!(
        html(search_error_reply("Scryfall API error: 400 Bad Request - bad")),
        (400, "<p><li>Invalid search query. Try adjusting your filters</li></p>".to_string())
    );
    assert_eq!(
        html(search_error_reply("Scryfall API error: 503 Service Unavailable - ")),
        (502, "<p><li>Scryfall API is temporarily unavailable. Try again in a moment</li></p>".to_string())
    );
    assert_eq!(
        html(search_error_reply("Scryfall API error: 500 Internal Server Error - ")),
        (502, "<p><li>Scryfall API is temporarily unavailable. Try again in a moment</li></p>".to_string())
    );
    assert_eq!(
        html(search_results_reply(Err("error sending request".to_string()), None)),
        (503, "<p><li>Unable to search cards. Please try again</li></p>".to_string())
    );
}

#[test]
fn card_details_as_json() {
    let mut c = card("id1", "Bolt", "common", "Instant");
    c.image_uris = Some(ImageUris { small: None, normal: Some("https://img/n.jpg".to_string()), large: None });
    match card_json_reply(Some(c)) {
        Reply::Json(j) => {
            assert_eq!(j.scryfall_id, "id1");
            assert_eq!(j.name, "Bolt");
            assert_eq!(j.rarity, "common");
            assert_eq!(j.type_line, "Instant");
            assert_eq!(j.image_uri, "https://img/n.jpg");
        },
        other => panic!("{:?}", other),
    }
    match card_json_reply(Some(card("id2", "X", "rare", "Land"))) {
        Reply::Json(j) => assert_eq!(j.image_uri, ""),
        other => panic!("{:?}", other),
    }
    match card_json_reply(None) {
        Reply::Text { status, body } => {
            assert_eq!(status, 404);
            assert_eq!(body, "Card not found");
        },
        other => panic!("{:?}", other),
    }
}

#[test]
fn selection_answers() {
    assert_eq!(html(select_card_reply(true)), (200, "<p>Selection saved</p>".to_string()));
    assert_eq!(html(select_card_reply(false)), (500, "<p>Error saving selection</p>".to_string()));
}

#[test]
fn pick_labels() {
    assert_eq!(pick_text(1), "1 pick");
    assert_eq!(pick_text(2), "2 picks");
    assert_eq!(pick_text(0), "0 picks");
    assert_eq!(pick_text(15), "15 picks");
}

fn pick(id: &str, n: i64) -> CommunityPick {
    CommunityPick { scryfall_id: id.to_string(), pick_count: n }
}

#[test]
fn community_picks() {
    assert_eq!(
        html(community_picks_reply("a1", None, vec![])),
        (500, "<p>Error loading community picks</p>".to_string())
    );
    assert_eq!(
        html(community_picks_reply("a1", Some(vec![]), vec![])),
        (200, "<p>No community picks yet. Be the first to select a card!</p>".to_string())
    );
    assert_eq!(
        html(community_picks_reply("a1", Some(vec![pick("x", 3)]), vec![None])),
        (200, "<p>Error loading community picks</p>".to_string())
    );
    let (status, body) = html(community_picks_reply(
        "a1",
        Some(vec![pick("x", 3), pick("y", 1), pick("z", 1)]),
        vec![Some(card("x", "X", "rare", "Land")), None, Some(card("z", "Z", "common", "Elf"))],
    ));
    assert_eq!(status, 200);
    let item = |id: &str, n: &str, r: &str, t: &str| {
        format!(
            r##"<li class="card-item" data-scryfall-id="{}" data-artist-id="{}">
                        {} ({})
                        <br><small>👥 {}</small>
                    </li>"##,
            id, "a1", n, r, t
        )
    };
    assert_eq!(
        body,
        format!("<ul class=\"card-list\">{}\n{}</ul>", item("x", "X", "rare", "3 picks"), item("z", "Z", "common", "1 pick"))
    );
}

#[test]
fn card_service_addresses() {
    assert_eq!(card_url("abc-123"), "https://api.scryfall.com/cards/abc-123");
    assert_eq!(
        search_url("rarity:rare color:U"),
        format!("https://api.scryfall.com/cards/search?q={}", urlencoding::encode("rarity:rare color:U"))
    );
    assert_eq!(search_url("a b&é~"), "https://api.scryfall.com/cards/search?q=a%20b%26%C3%A9~");
}

#[test]
fn rate_limit() {
    assert_eq!(rate_limit_pause(None), 0);
    assert_eq!(rate_limit_pause(Some(30_000_000)), 70_000_000);
    assert_eq!(rate_limit_pause(Some(100_000_000)), 0);
    assert_eq!(rate_limit_pause(Some(5_000_000_000)), 0);
}
