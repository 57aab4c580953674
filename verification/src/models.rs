//! Rows of the database tables and the forms that the endpoints receive.

use vstd::prelude::*;

verus! {

/// A festival artist.
#[derive(Debug)]
pub struct Artist {
    pub id: String,
    pub name: String,
    pub created_at: String,
}

/// One festival year in which an artist played.
#[derive(Debug)]
pub struct ArtistAppearance {
    pub id: Option<i64>,
    pub artist_id: String,
    pub year: String,
}

/// What the music databases know of an artist; `tags` is a JSON array of strings.
#[derive(Debug)]
pub struct ArtistMetadata {
    pub artist_id: String,
    pub found_musicbrainz: i64,
    pub found_discogs: i64,
    pub found_lastfm: i64,
    pub tags: Option<String>,
    pub area: Option<String>,
    pub artist_type: Option<String>,
}

/// A user, known by name only.
#[derive(Debug)]
pub struct User {
    pub id: i64,
    pub name: String,
    pub created_at: String,
}

/// The card that a user chose for an artist.
#[derive(Debug)]
pub struct UserMTGSelection {
    pub id: i64,
    pub user_id: i64,
    pub artist_id: String,
    pub scryfall_id: String,
    pub created_at: String,
    pub updated_at: String,
}

/// A rename that a user made of an artist (`new_name` may be missing in the row).
#[derive(Debug)]
pub struct ArtistRename {
    pub artist_id: String,
    pub new_name: Option<String>,
}

/// A merge that a user made of an artist into another (`merge_into` may be missing in the row).
#[derive(Debug)]
pub struct ArtistMerge {
    pub artist_id: String,
    pub merge_into: Option<String>,
}

/// The login form.
#[derive(Debug)]
pub struct LoginForm {
    pub name: String,
}

/// The rename form.
#[derive(Debug)]
pub struct RenameForm {
    pub new_name: String,
}

/// The merge form.
#[derive(Debug)]
pub struct MergeForm {
    pub merge_into: String,
}

/// The user metadata form: a JSON object text.
#[derive(Debug)]
pub struct MetadataForm {
    pub metadata_json: String,
}

/// The card selection form.
#[derive(Debug)]
pub struct SelectForm {
    pub artist_id: String,
    pub scryfall_id: String,
}

} // verus!
