//! Card search, the card service's addresses, card details and community picks.

use vstd::prelude::*;
use vstd::utf8::encode_utf8;
use crate::text::{
    chars_of, contains, contains_text, digit_char, int_text, join, join_strings, lemma_join_empty,
    lemma_split_on_nonempty, lemma_int_text_roundtrip, owned, parse_int_text, push_int_text, split_chars, split_on, trim, trimmed,
};
use crate::reply::{
    error_response, html_ok, paragraph, CardJson, Reply, STATUS_BAD_GATEWAY, STATUS_BAD_REQUEST,
    STATUS_INTERNAL_SERVER_ERROR, STATUS_NOT_FOUND, STATUS_OK, STATUS_SERVICE_UNAVAILABLE,
};

verus! {

/// Image links of a card.
#[derive(Debug)]
pub struct ImageUris {
    pub small: Option<String>,
    pub normal: Option<String>,
    pub large: Option<String>,
}

/// The fields of a Scryfall card that the endpoints show.
#[derive(Debug)]
pub struct CardSummary {
    pub id: String,
    pub name: String,
    pub rarity: String,
    pub type_line: String,
    pub image_uris: Option<ImageUris>,
}

/// A card that users chose for an artist, with how many chose it.
#[derive(Debug)]
pub struct CommunityPick {
    pub scryfall_id: String,
    pub pick_count: i64,
}

pub const SCRYFALL_API_BASE: &'static str = "https://api.scryfall.com";

/// Scryfall asks for at least this many milliseconds between two requests.
pub const RATE_LIMIT_MS: u64 = 100;

/// How long to wait (in nanoseconds) before the next card service request, given
/// how long ago the previous one was made (`None` when there was none).
pub fn rate_limit_pause(elapsed_nanos: Option<u128>) -> (pause: u64)
    ensures
        match elapsed_nanos {
            Some(e) => pause == (if e < RATE_LIMIT_MS * 1_000_000 { RATE_LIMIT_MS * 1_000_000 - e } else { 0 })
                && e + pause >= RATE_LIMIT_MS * 1_000_000,
            None => pause == 0,
        },
{
    match elapsed_nanos {
        Some(e) => {
            let min_delay: u128 = (RATE_LIMIT_MS as u128) * 1_000_000;
            if e < min_delay {
                (min_delay - e) as u64
            } else {
                0
            }
        },
        None => 0,
    }
}

// Pieces of a search result line that names the artist.
pub const SEARCH_ITEM_0: &'static str = r#"<li class="card-item" data-scryfall-id=""#;
pub const SEARCH_ITEM_1: &'static str = r#"" data-artist-id=""#;
pub const SEARCH_ITEM_2: &'static str = r#"">
                                "#;
pub const SEARCH_ITEM_3: &'static str = r#" ("#;
pub const SEARCH_ITEM_4: &'static str = r#")
                                <br><small>"#;
pub const SEARCH_ITEM_5: &'static str = r#"</small>
                            </li>"#;

// Pieces of a search result line without an artist.
pub const SEARCH_ITEM_PLAIN_0: &'static str = r#"<li class="card-item" data-scryfall-id=""#;
pub const SEARCH_ITEM_PLAIN_1: &'static str = r#"">
                                "#;
pub const SEARCH_ITEM_PLAIN_2: &'static str = r#" ("#;
pub const SEARCH_ITEM_PLAIN_3: &'static str = r#")
                                <br><small>"#;
pub const SEARCH_ITEM_PLAIN_4: &'static str = r#"</small>
                            </li>"#;

// Pieces of a community pick line.
pub const PICK_ITEM_0: &'static str = r#"<li class="card-item" data-scryfall-id=""#;
pub const PICK_ITEM_1: &'static str = r#"" data-artist-id=""#;
pub const PICK_ITEM_2: &'static str = r#"">
                        "#;
pub const PICK_ITEM_3: &'static str = r#" ("#;
pub const PICK_ITEM_4: &'static str = r#")
                        <br><small>👥 "#;
pub const PICK_ITEM_5: &'static str = r#"</small>
                    </li>"#;

// ---------------------------------------------------------------------------
// Search query

/// One filter term: the prefix and the value, when a non-empty value is given.
pub open spec fn filter_term(prefix: Seq<char>, value: Option<Seq<char>>) -> Seq<Seq<char>> {
    match value {
        Some(v) => if v.len() > 0 { seq![prefix + v] } else { Seq::<Seq<char>>::empty() },
        None => Seq::<Seq<char>>::empty(),
    }
}

/// One `color:` term for each comma-separated color, trimmed.
pub open spec fn color_terms(colors: Option<Seq<char>>) -> Seq<Seq<char>> {
    match colors {
        Some(c) => if c.len() > 0 {
            split_on(c, ',').map_values(|p: Seq<char>| "color:"@ + trim(p))
        } else {
            Seq::<Seq<char>>::empty()
        },
        None => Seq::<Seq<char>>::empty(),
    }
}

/// The terms of a search query, in order: rarity, colors, mana value, mechanic, free text.
pub open spec fn query_terms(
    rarity: Option<Seq<char>>,
    colors: Option<Seq<char>>,
    cmc: Option<Seq<char>>,
    text_query: Option<Seq<char>>,
    mechanic: Option<Seq<char>>,
) -> Seq<Seq<char>> {
    filter_term("rarity:"@, rarity) + color_terms(colors) + (match cmc {
        Some(m) => seq!["cmc="@ + m],
        None => Seq::<Seq<char>>::empty(),
    }) + filter_term("keyword:"@, mechanic) + filter_term(Seq::<char>::empty(), text_query)
}

/// The search query: its terms separated by single spaces.
pub open spec fn search_query(
    rarity: Option<Seq<char>>,
    colors: Option<Seq<char>>,
    cmc: Option<Seq<char>>,
    text_query: Option<Seq<char>>,
    mechanic: Option<Seq<char>>,
) -> Seq<char> {
    join(query_terms(rarity, colors, cmc, text_query, mechanic), " "@)
}

/// True when a filter value is given and not empty.
pub open spec fn given(value: Option<Seq<char>>) -> bool {
    value matches Some(v) && v.len() > 0
}

fn push_filter_term(parts: &mut Vec<String>, prefix: &str, value: Option<&str>)
    ensures
        final(parts).deep_view() == old(parts).deep_view() + filter_term(prefix@, value.deep_view()),
{
    if let Some(v) = value {
        if !v.is_empty() {
            let mut t: String = owned(prefix);
            t.append(v);
            let ghost before = parts.deep_view();
            parts.push(t);
            assert(parts.deep_view() =~= before + filter_term(prefix@, value.deep_view()));
            return;
        }
    }
    assert(parts.deep_view() =~= old(parts).deep_view() + filter_term(prefix@, value.deep_view()));
}

fn push_color_terms(parts: &mut Vec<String>, colors: Option<&str>)
    ensures
        final(parts).deep_view() == old(parts).deep_view() + color_terms(colors.deep_view()),
{
    if let Some(c) = colors {
        if !c.is_empty() {
            let pieces: Vec<Vec<char>> = split_chars(&chars_of(c), ',');
            let ghost terms = color_terms(colors.deep_view());
            let ghost start = parts.deep_view();
            assert(terms.len() == pieces@.len());
            let n: usize = pieces.len();
            let mut i: usize = 0;
            while i < n
                invariant
                    n == pieces@.len(),
                    i <= n,
                    terms.len() == n,
                    terms == color_terms(colors.deep_view()),
                    pieces.deep_view() == split_on(c@, ','),
                    colors.deep_view() == Some(c@),
                    c@.len() > 0,
                    parts.deep_view() == start + terms.take(i as int),
                decreases n - i,
            {
                let mut t: String = owned("color:");
                let piece: String = trimmed(&pieces[i]);
                t.append(piece.as_str());
                assert(pieces@[i as int].deep_view() =~= pieces@[i as int]@);
                assert(t@ == terms[i as int]);
                let ghost before = parts.deep_view();
                parts.push(t);
                assert(parts.deep_view() =~= before.push(terms[i as int]));
                i = i + 1;
                assert(parts.deep_view() =~= start + terms.take(i as int));
            }
            assert(terms.take(n as int) =~= terms);
            return;
        }
    }
    assert(parts.deep_view() =~= old(parts).deep_view() + color_terms(colors.deep_view()));
}

/// Builds a Scryfall search query from the filter values. `cmc` is the mana
/// value as decimal text; the other filters are skipped when empty.
pub fn build_search_query(
    rarity: Option<&str>,
    colors: Option<&str>,
    cmc: Option<&str>,
    text_query: Option<&str>,
    mechanic: Option<&str>,
) -> (res: String)
    ensures
        res@ == search_query(
            rarity.deep_view(),
            colors.deep_view(),
            cmc.deep_view(),
            text_query.deep_view(),
            mechanic.deep_view(),
        ),
{
    let mut parts: Vec<String> = Vec::new();
    assert(parts.deep_view() =~= Seq::<Seq<char>>::empty());
    push_filter_term(&mut parts, "rarity:", rarity);
    let ghost p1 = parts.deep_view();
    assert(p1 =~= filter_term("rarity:"@, rarity.deep_view()));
    push_color_terms(&mut parts, colors);
    let ghost p2 = parts.deep_view();
    let ghost cmc_terms = match cmc.deep_view() {
        Some(m) => seq!["cmc="@ + m],
        None => Seq::<Seq<char>>::empty(),
    };
    if let Some(m) = cmc {
        let mut t: String = owned("cmc=");
        t.append(m);
        parts.push(t);
        assert(parts.deep_view() =~= p2.push(t@));
    }
    assert(parts.deep_view() =~= p2 + cmc_terms);
    push_filter_term(&mut parts, "keyword:", mechanic);
    push_filter_term(&mut parts, "", text_query);
    proof {
        reveal_strlit("");
    }
    assert(""@ =~= Seq::<char>::empty());
    let ghost terms = query_terms(
        rarity.deep_view(),
        colors.deep_view(),
        cmc.deep_view(),
        text_query.deep_view(),
        mechanic.deep_view(),
    );
    assert(parts.deep_view() =~= terms);
    join_strings(&parts, " ")
}

/// The search query is empty exactly when no filter is given (an empty rarity,
/// color list, mechanic or free text counts as not given; a mana value always counts).
pub proof fn lemma_query_empty_iff_no_filter(
    rarity: Option<Seq<char>>,
    colors: Option<Seq<char>>,
    cmc: Option<Seq<char>>,
    text_query: Option<Seq<char>>,
    mechanic: Option<Seq<char>>,
)
    ensures
        search_query(rarity, colors, cmc, text_query, mechanic).len() == 0 <==> (!given(rarity)
            && !given(colors) && cmc is None && !given(text_query) && !given(mechanic)),
{
    reveal_strlit("rarity:");
    reveal_strlit("color:");
    reveal_strlit("cmc=");
    reveal_strlit("keyword:");
    let terms = query_terms(rarity, colors, cmc, text_query, mechanic);
    if let Some(c) = colors {
        lemma_split_on_nonempty(c, ',');
    }
    assert forall|i: int| 0 <= i < terms.len() implies #[trigger] terms[i].len() > 0 by {
        let a = filter_term("rarity:"@, rarity);
        let b = color_terms(colors);
        let m = match cmc {
            Some(m) => seq!["cmc="@ + m],
            None => Seq::<Seq<char>>::empty(),
        };
        let d = filter_term("keyword:"@, mechanic);
        let e = filter_term(Seq::<char>::empty(), text_query);
        assert(terms =~= a + b + m + d + e);
        if i < a.len() {
        } else if i < a.len() + b.len() {
            assert(terms[i] == b[i - a.len()]);
        } else if i < a.len() + b.len() + m.len() {
        } else if i < a.len() + b.len() + m.len() + d.len() {
        } else {
        }
    }
    lemma_join_empty(terms, " "@);
}

// ---------------------------------------------------------------------------
// Search endpoint

/// Without any filter the search endpoint asks the user for criteria and does
/// not call the card service; `None` means the query is to be sent.
pub fn search_gate(query: &str) -> (r: Option<Reply>)
    ensures
        query@.len() == 0 ==> (r matches Some(reply) && reply.is_html(STATUS_OK, "<li>Enter search criteria</li>"@)),
        query@.len() > 0 ==> r is None,
{
    if query.is_empty() {
        Some(html_ok(owned("<li>Enter search criteria</li>")))
    } else {
        None
    }
}

/// One line of the search results.
pub open spec fn search_item(card: CardSummary, artist_id: Option<Seq<char>>) -> Seq<char> {
    match artist_id {
        Some(a) => SEARCH_ITEM_0@ + card.id@ + SEARCH_ITEM_1@ + a + SEARCH_ITEM_2@ + card.name@
            + SEARCH_ITEM_3@ + card.rarity@ + SEARCH_ITEM_4@ + card.type_line@ + SEARCH_ITEM_5@,
        None => SEARCH_ITEM_PLAIN_0@ + card.id@ + SEARCH_ITEM_PLAIN_1@ + card.name@
            + SEARCH_ITEM_PLAIN_2@ + card.rarity@ + SEARCH_ITEM_PLAIN_3@ + card.type_line@
            + SEARCH_ITEM_PLAIN_4@,
    }
}

/// A card list: the lines, separated by newlines, in a `card-list` element.
pub open spec fn card_list(items: Seq<Seq<char>>) -> Seq<char> {
    "<ul class=\"card-list\">"@ + join(items, "\n"@) + "</ul>"@
}

fn search_item_text(card: &CardSummary, artist_id: Option<&str>) -> (res: String)
    ensures
        res@ == search_item(*card, artist_id.deep_view()),
{
    match artist_id {
        Some(a) => {
            let mut s: String = owned(SEARCH_ITEM_0);
            s.append(card.id.as_str());
            s.append(SEARCH_ITEM_1);
            s.append(a);
            s.append(SEARCH_ITEM_2);
            s.append(card.name.as_str());
            s.append(SEARCH_ITEM_3);
            s.append(card.rarity.as_str());
            s.append(SEARCH_ITEM_4);
            s.append(card.type_line.as_str());
            s.append(SEARCH_ITEM_5);
            s
        },
        None => {
            let mut s: String = owned(SEARCH_ITEM_PLAIN_0);
            s.append(card.id.as_str());
            s.append(SEARCH_ITEM_PLAIN_1);
            s.append(card.name.as_str());
            s.append(SEARCH_ITEM_PLAIN_2);
            s.append(card.rarity.as_str());
            s.append(SEARCH_ITEM_PLAIN_3);
            s.append(card.type_line.as_str());
            s.append(SEARCH_ITEM_PLAIN_4);
            s
        },
    }
}

fn card_list_text(items: &Vec<String>) -> (res: String)
    ensures
        res@ == card_list(items.deep_view()),
{
    let mut s: String = owned("<ul class=\"card-list\">");
    let joined: String = join_strings(items, "\n");
    s.append(joined.as_str());
    s.append("</ul>");
    s
}

/// The status that a failed search is answered with, from the error's text.
pub open spec fn search_error_status(message: Seq<char>) -> u16 {
    if contains_text(message, "404"@) {
        STATUS_NOT_FOUND
    } else if contains_text(message, "400"@) {
        STATUS_BAD_REQUEST
    } else if contains_text(message, "503"@) || contains_text(message, "500"@) {
        STATUS_BAD_GATEWAY
    } else {
        STATUS_SERVICE_UNAVAILABLE
    }
}

/// The list item that a failed search is answered with, from the error's text.
pub open spec fn search_error_text(message: Seq<char>) -> Seq<char> {
    if contains_text(message, "404"@) {
        "<li>No cards found matching your search criteria</li>"@
    } else if contains_text(message, "400"@) {
        "<li>Invalid search query. Try adjusting your filters</li>"@
    } else if contains_text(message, "503"@) || contains_text(message, "500"@) {
        "<li>Scryfall API is temporarily unavailable. Try again in a moment</li>"@
    } else {
        "<li>Unable to search cards. Please try again</li>"@
    }
}

/// The answer to a failed card search: the HTTP status named in the error's
/// text decides the status and the message.
pub fn search_error_reply(message: &str) -> (r: Reply)
    ensures
        r.is_html(search_error_status(message@), paragraph(search_error_text(message@))),
{
    if contains(message, "404") {
        error_response(STATUS_NOT_FOUND, "<li>No cards found matching your search criteria</li>")
    } else if contains(message, "400") {
        error_response(STATUS_BAD_REQUEST, "<li>Invalid search query. Try adjusting your filters</li>")
    } else if contains(message, "503") || contains(message, "500") {
        error_response(
            STATUS_BAD_GATEWAY,
            "<li>Scryfall API is temporarily unavailable. Try again in a moment</li>",
        )
    } else {
        error_response(STATUS_SERVICE_UNAVAILABLE, "<li>Unable to search cards. Please try again</li>")
    }
}

/// The answer to a card search from what the card service gave back: the cards
/// as a list (each line naming the artist when one is given), a note when there
/// are none, or the error's answer.
pub fn search_results_reply(outcome: Result<Vec<CardSummary>, String>, artist_id: Option<&str>) -> (r: Reply)
    ensures
        match outcome {
            Ok(cards) => if cards@.len() == 0 {
                r.is_html(STATUS_OK, "<li>No cards found</li>"@)
            } else {
                r.is_html(STATUS_OK, card_list(cards@.map_values(|c: CardSummary| search_item(c, artist_id.deep_view()))))
            },
            Err(message) => r.is_html(search_error_status(message@), paragraph(search_error_text(message@))),
        },
{
    match outcome {
        Ok(cards) => {
            if cards.len() == 0 {
                return html_ok(owned("<li>No cards found</li>"));
            }
            let ghost spec_items = cards@.map_values(|c: CardSummary| search_item(c, artist_id.deep_view()));
            let mut items: Vec<String> = Vec::new();
            let n: usize = cards.len();
            let mut i: usize = 0;
            while i < n
                invariant
                    n == cards@.len(),
                    i <= n,
                    spec_items == cards@.map_values(|c: CardSummary| search_item(c, artist_id.deep_view())),
                    items.deep_view() == spec_items.take(i as int),
                decreases n - i,
            {
                let line: String = search_item_text(&cards[i], artist_id);
                let ghost before = items.deep_view();
                items.push(line);
                assert(items.deep_view() =~= before.push(line@));
                assert(spec_items[i as int] == line@);
                i = i + 1;
                assert(items.deep_view() =~= spec_items.take(i as int));
            }
            assert(spec_items.take(n as int) =~= spec_items);
            html_ok(card_list_text(&items))
        },
        Err(message) => search_error_reply(message.as_str()),
    }
}

// ---------------------------------------------------------------------------
// Card details

/// The normal-size image link of a card, or the empty text.
pub open spec fn normal_image(card: CardSummary) -> Seq<char> {
    match card.image_uris {
        Some(u) => match u.normal {
            Some(n) => n@,
            None => Seq::<char>::empty(),
        },
        None => Seq::<char>::empty(),
    }
}

/// The answer to a card detail request: the card's fields as JSON, or
/// `Card not found` with status 404 when the card service gave no card.
pub fn card_json_reply(card: Option<CardSummary>) -> (r: Reply)
    ensures
        match card {
            Some(c) => (r matches Reply::Json(j) && j.scryfall_id@ == c.id@ && j.name@ == c.name@
                && j.rarity@ == c.rarity@ && j.type_line@ == c.type_line@ && j.image_uri@ == normal_image(c)),
            None => r.is_text(STATUS_NOT_FOUND, "Card not found"@),
        },
        card matches Some(c) ==> (r matches Reply::Json(j) && ((c.image_uris is Some && c.image_uris->0.normal is Some)
            ==> j.image_uri@ == c.image_uris->0.normal->0@)),
        card matches Some(c) ==> (r matches Reply::Json(j) && (!(c.image_uris matches Some(u) && u.normal is Some)
            ==> j.image_uri@.len() == 0)),
{
    match card {
        Some(c) => {
            let image_uri: String = match c.image_uris {
                Some(u) => match u.normal {
                    Some(n) => n,
                    None => String::new(),
                },
                None => String::new(),
            };
            Reply::Json(CardJson {
                scryfall_id: c.id,
                name: c.name,
                rarity: c.rarity,
                type_line: c.type_line,
                image_uri,
            })
        },
        None => Reply::Text { status: STATUS_NOT_FOUND, body: owned("Card not found") },
    }
}

/// The viewer gets the card's normal-size image whenever the card has one, whatever
/// other sizes it has, and no image link otherwise.
pub proof fn lemma_viewer_gets_normal_image(card: CardSummary)
    ensures
        (card.image_uris is Some && card.image_uris->0.normal is Some) ==> normal_image(card)
            == card.image_uris->0.normal->0@,
        !(card.image_uris matches Some(u) && u.normal is Some) ==> normal_image(card).len() == 0,
{
}

// ---------------------------------------------------------------------------
// Selection and community picks

/// The answer to saving a card selection.
pub fn select_card_reply(saved: bool) -> (r: Reply)
    ensures
        saved ==> r.is_html(STATUS_OK, paragraph("Selection saved"@)),
        !saved ==> r.is_html(STATUS_INTERNAL_SERVER_ERROR, paragraph("Error saving selection"@)),
{
    if saved {
        crate::reply::success_response("Selection saved")
    } else {
        error_response(STATUS_INTERNAL_SERVER_ERROR, "Error saving selection")
    }
}

/// How many users picked a card: `1 pick`, otherwise `N picks`.
pub open spec fn picks_label(count: int) -> Seq<char> {
    if count == 1 {
        "1 pick"@
    } else {
        int_text(count) + " picks"@
    }
}

/// The label for a pick count.
pub fn pick_text(count: i64) -> (res: String)
    ensures
        res@ == picks_label(count as int),
{
    if count == 1 {
        owned("1 pick")
    } else {
        let mut s: String = String::new();
        push_int_text(&mut s, count);
        s.append(" picks");
        s
    }
}

/// One line of the community picks.
pub open spec fn pick_item(artist_id: Seq<char>, card: CardSummary, count: int) -> Seq<char> {
    PICK_ITEM_0@ + card.id@ + PICK_ITEM_1@ + artist_id + PICK_ITEM_2@ + card.name@ + PICK_ITEM_3@
        + card.rarity@ + PICK_ITEM_4@ + picks_label(count) + PICK_ITEM_5@
}

/// The lines for the picks whose card the card service gave back, in pick order;
/// picks whose card could not be fetched are skipped.
pub open spec fn pick_items(artist_id: Seq<char>, picks: Seq<CommunityPick>, cards: Seq<Option<CardSummary>>) -> Seq<Seq<char>>
    decreases picks.len(),
{
    if picks.len() == 0 || cards.len() == 0 {
        Seq::<Seq<char>>::empty()
    } else {
        let prev = pick_items(artist_id, picks.drop_last(), cards.drop_last());
        match cards.last() {
            Some(c) => prev.push(pick_item(artist_id, c, picks.last().pick_count as int)),
            None => prev,
        }
    }
}

/// When the card service gave every picked card, there is one line per pick, in
/// pick order, and each line shows its own card and its own pick's count.
pub proof fn lemma_pick_lines(artist_id: Seq<char>, picks: Seq<CommunityPick>, cards: Seq<Option<CardSummary>>)
    requires
        cards.len() == picks.len(),
        forall|i: int| 0 <= i < cards.len() ==> #[trigger] cards[i] is Some,
    ensures
        pick_items(artist_id, picks, cards).len() == picks.len(),
        forall|i: int| 0 <= i < picks.len() ==> #[trigger] pick_items(artist_id, picks, cards)[i]
            == PICK_ITEM_0@ + cards[i]->0.id@ + PICK_ITEM_1@ + artist_id + PICK_ITEM_2@ + cards[i]->0.name@
                + PICK_ITEM_3@ + cards[i]->0.rarity@ + PICK_ITEM_4@ + picks_label(picks[i].pick_count as int)
                + PICK_ITEM_5@,
    decreases picks.len(),
{
    if picks.len() > 0 {
        let pi = picks.drop_last();
        let ci = cards.drop_last();
        assert forall|i: int| 0 <= i < ci.len() implies #[trigger] ci[i] is Some by {
            assert(ci[i] == cards[i]);
        }
        lemma_pick_lines(artist_id, pi, ci);
        assert(cards.last() == cards[cards.len() - 1]);
        assert forall|i: int| 0 <= i < picks.len() implies #[trigger] pick_items(artist_id, picks, cards)[i]
            == PICK_ITEM_0@ + cards[i]->0.id@ + PICK_ITEM_1@ + artist_id + PICK_ITEM_2@ + cards[i]->0.name@
                + PICK_ITEM_3@ + cards[i]->0.rarity@ + PICK_ITEM_4@ + picks_label(picks[i].pick_count as int)
                + PICK_ITEM_5@ by {
            if i < picks.len() - 1 {
                assert(pi[i] == picks[i]);
                assert(ci[i] == cards[i]);
                assert(pick_items(artist_id, pi, ci)[i] == pick_items(artist_id, picks, cards)[i]);
            }
        }
    }
}

/// Picks whose card the card service did not give are left out: when it gave
/// none, there are no lines.
pub proof fn lemma_no_cards_no_lines(artist_id: Seq<char>, picks: Seq<CommunityPick>, cards: Seq<Option<CardSummary>>)
    requires
        forall|i: int| 0 <= i < cards.len() ==> #[trigger] cards[i] is None,
    ensures
        pick_items(artist_id, picks, cards).len() == 0,
    decreases picks.len(),
{
    if picks.len() > 0 && cards.len() > 0 {
        let ci = cards.drop_last();
        assert forall|i: int| 0 <= i < ci.len() implies #[trigger] ci[i] is None by {
            assert(ci[i] == cards[i]);
        }
        assert(cards.last() == cards[cards.len() - 1]);
        lemma_no_cards_no_lines(artist_id, picks.drop_last(), ci);
    }
}

/// A pick count is labelled `1 pick` for one and `N picks` (the count in decimal) otherwise.
pub proof fn lemma_picks_label(count: int)
    requires
        i64::MIN <= count <= i64::MAX,
    ensures
        count == 1 ==> picks_label(count) == "1 pick"@,
        count != 1 ==> (picks_label(count) == int_text(count) + " picks"@
            && parse_int_text(picks_label(count).subrange(0, int_text(count).len() as int)) == Some(count)),
{
    if count != 1 {
        lemma_int_text_roundtrip(count);
        assert(picks_label(count).subrange(0, int_text(count).len() as int) =~= int_text(count));
    }
}

fn pick_item_text(artist_id: &str, card: &CardSummary, count: i64) -> (res: String)
    ensures
        res@ == pick_item(artist_id@, *card, count as int),
{
    let mut s: String = owned(PICK_ITEM_0);
    s.append(card.id.as_str());
    s.append(PICK_ITEM_1);
    s.append(artist_id);
    s.append(PICK_ITEM_2);
    s.append(card.name.as_str());
    s.append(PICK_ITEM_3);
    s.append(card.rarity.as_str());
    s.append(PICK_ITEM_4);
    let label: String = pick_text(count);
    s.append(label.as_str());
    s.append(PICK_ITEM_5);
    s
}

/// The answer to a community picks request. `picks` is what the database gave
/// (the most picked cards first; `None` when the query failed) and `cards` what
/// the card service gave for each pick, in the same order.
pub fn community_picks_reply(artist_id: &str, picks: Option<Vec<CommunityPick>>, cards: Vec<Option<CardSummary>>) -> (r: Reply)
    requires
        picks matches Some(p) ==> cards@.len() == p@.len(),
    ensures
        match picks {
            None => r.is_html(STATUS_INTERNAL_SERVER_ERROR, paragraph("Error loading community picks"@)),
            Some(p) => if p@.len() == 0 {
                r.is_html(STATUS_OK, "<p>No community picks yet. Be the first to select a card!</p>"@)
            } else if pick_items(artist_id@, p@, cards@).len() == 0 {
                r.is_html(STATUS_OK, "<p>Error loading community picks</p>"@)
            } else {
                r.is_html(STATUS_OK, card_list(pick_items(artist_id@, p@, cards@)))
            },
        },
{
    let p: Vec<CommunityPick> = match picks {
        None => {
            return error_response(STATUS_INTERNAL_SERVER_ERROR, "Error loading community picks");
        },
        Some(p) => p,
    };
    if p.len() == 0 {
        return html_ok(owned("<p>No community picks yet. Be the first to select a card!</p>"));
    }
    let n: usize = p.len();
    let mut items: Vec<String> = Vec::new();
    let mut i: usize = 0;
    while i < n
        invariant
            n == p@.len(),
            n == cards@.len(),
            i <= n,
            items.deep_view() == pick_items(artist_id@, p@.take(i as int), cards@.take(i as int)),
        decreases n - i,
    {
        let ghost before = items.deep_view();
        assert(p@.take(i + 1).drop_last() =~= p@.take(i as int));
        assert(cards@.take(i + 1).drop_last() =~= cards@.take(i as int));
        match &cards[i] {
            Some(c) => {
                let line: String = pick_item_text(artist_id, c, p[i].pick_count);
                items.push(line);
                assert(items.deep_view() =~= before.push(line@));
            },
            None => {},
        }
        i = i + 1;
    }
    assert(p@.take(n as int) =~= p@);
    assert(cards@.take(n as int) =~= cards@);
    if items.len() == 0 {
        html_ok(owned("<p>Error loading community picks</p>"))
    } else {
        html_ok(card_list_text(&items))
    }
}

// ---------------------------------------------------------------------------
// Card service addresses

/// The bytes that a URL carries as they are: ASCII letters, digits and `-` `.` `_` `~`.
pub open spec fn url_safe_byte(b: u8) -> bool {
    (48 <= b <= 57) || (65 <= b <= 90) || (97 <= b <= 122) || b == 45 || b == 46 || b == 95 || b == 126
}

/// An upper-case hexadecimal digit.
pub open spec fn hex_digit(d: nat) -> char {
    if d < 10 {
        digit_char(d)
    } else if d == 10 {
        'A'
    } else if d == 11 {
        'B'
    } else if d == 12 {
        'C'
    } else if d == 13 {
        'D'
    } else if d == 14 {
        'E'
    } else {
        'F'
    }
}

/// Percent-encoding of bytes: safe bytes as they are, every other byte as `%`
/// and two upper-case hexadecimal digits.
pub open spec fn percent_encode(bytes: Seq<u8>) -> Seq<char>
    decreases bytes.len(),
{
    if bytes.len() == 0 {
        Seq::<char>::empty()
    } else {
        let b = bytes.last();
        percent_encode(bytes.drop_last()) + if url_safe_byte(b) {
            seq![b as char]
        } else {
            seq!['%', hex_digit((b / 16) as nat), hex_digit((b % 16) as nat)]
        }
    }
}

/// Calls `urlencoding::encode`, which percent-encodes the UTF-8 bytes of the text,
/// leaving only ASCII letters, digits and `-` `.` `_` `~` as they are.
#[verifier::external_body]
fn url_encode(text: &str) -> (res: String)
    ensures
        res@ == percent_encode(encode_utf8(text@)),
{
    urlencoding::encode(text).into_owned()
}

/// The address of a Scryfall card search for a query.
pub fn search_url(query: &str) -> (res: String)
    ensures
        res@ == SCRYFALL_API_BASE@ + "/cards/search?q="@ + percent_encode(encode_utf8(query@)),
{
    let mut s: String = owned(SCRYFALL_API_BASE);
    s.append("/cards/search?q=");
    let encoded: String = url_encode(query);
    s.append(encoded.as_str());
    s
}

/// The address of one Scryfall card.
pub fn card_url(scryfall_id: &str) -> (res: String)
    ensures
        res@ == SCRYFALL_API_BASE@ + "/cards/"@ + scryfall_id@,
{
    let mut s: String = owned(SCRYFALL_API_BASE);
    s.append("/cards/");
    s.append(scryfall_id);
    s
}

} // verus!
