# basscoast_web

A web application that maps Bass Coast festival artists to Magic: The Gathering
cards. This crate is its verified core, written in Verus.

- `src/` — the library. Its functions are verified, except a few small trusted
  wrappers around `serde_json`, `urlencoding` and `String::push`, whose contracts
  are believed (they are marked `external_body` / `assume_specification`):
  - `text` — character-level text: decimal integers (written and read like
    `to_string` / `parse::<i64>`), trimming, splitting, joining, substring search,
    quote escaping.
  - `reply` — what a request is answered (status and HTML, text, JSON or redirect).
  - `models` — table rows and forms.
  - `auth` — the `user_id` cookie, login, and pages that need a user.
  - `artists` — the artist dropdown and detail panel with the user's renames,
    deletions, merges and own metadata applied.
  - `edits` — answers to renames, merges, deletions and metadata saves.
  - `mtg` — the card search query, search results, card details, community
    picks, the card service's addresses and its rate limit.
  - `enrich` — decisions of the MusicBrainz enrichment and JSON import tools.
  - `json` — the JSON texts read and written through `serde_json`.
- `app/` — the server around it: routes, cookies, SQLite queries, HTTP calls to
  Scryfall and MusicBrainz, static pages, and the two metadata tools
  (`import-json FILE`, `enrich-metadata [--limit N]` as first argument).
- `tests/` — tests of the library on concrete values.
