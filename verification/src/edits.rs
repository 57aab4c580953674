//! The answers to a user's edits of an artist: rename, merge, delete and metadata.

use vstd::prelude::*;
use crate::text::owned;
use crate::reply::{error_response, html_ok, paragraph, Reply, STATUS_BAD_REQUEST, STATUS_INTERNAL_SERVER_ERROR, STATUS_OK};
use crate::json::{is_json, json_accepts};

verus! {

/// The answer to a rename. `saved` tells whether the rename was stored,
/// `refreshed` whether the artist could be read again afterwards.
pub fn rename_reply(new_name: &str, saved: bool, refreshed: bool) -> (r: Reply)
    ensures
        !saved ==> r.is_html(STATUS_INTERNAL_SERVER_ERROR, paragraph("Error saving rename"@)),
        saved && refreshed ==> r.is_html(STATUS_OK, paragraph("Artist renamed to: "@ + new_name@)),
        saved && !refreshed ==> r.is_html(STATUS_OK, "<p>Rename saved but error refreshing</p>"@),
{
    if !saved {
        error_response(STATUS_INTERNAL_SERVER_ERROR, "Error saving rename")
    } else if refreshed {
        let mut body: String = owned("<p>");
        body.append("Artist renamed to: ");
        body.append(new_name);
        body.append("</p>");
        assert(body@ =~= paragraph("Artist renamed to: "@ + new_name@));
        html_ok(body)
    } else {
        html_ok(owned("<p>Rename saved but error refreshing</p>"))
    }
}

/// The answer to a merge of one artist into another.
pub fn merge_reply(saved: bool) -> (r: Reply)
    ensures
        saved ==> r.is_html(STATUS_OK, "<p>Artist merged successfully</p>"@),
        !saved ==> r.is_html(STATUS_INTERNAL_SERVER_ERROR, paragraph("Error merging artist"@)),
{
    if saved {
        html_ok(owned("<p>Artist merged successfully</p>"))
    } else {
        error_response(STATUS_INTERNAL_SERVER_ERROR, "Error merging artist")
    }
}

/// The answer to deleting an artist from the user's view.
pub fn delete_reply(saved: bool) -> (r: Reply)
    ensures
        saved ==> r.is_html(STATUS_OK, "<p>Artist deleted from your view</p>"@),
        !saved ==> r.is_html(STATUS_INTERNAL_SERVER_ERROR, paragraph("Error deleting artist"@)),
{
    if saved {
        html_ok(owned("<p>Artist deleted from your view</p>"))
    } else {
        error_response(STATUS_INTERNAL_SERVER_ERROR, "Error deleting artist")
    }
}

/// User metadata that is not JSON is refused with status 400 and not stored;
/// `None` means the metadata is to be stored.
pub fn metadata_gate(metadata_json: &str) -> (r: Option<Reply>)
    ensures
        !json_accepts(metadata_json@) ==> (r matches Some(reply)
            && reply.is_html(STATUS_BAD_REQUEST, paragraph("Invalid JSON format"@))),
        json_accepts(metadata_json@) ==> r is None,
{
    metadata_check(is_json(metadata_json))
}

/// The answer to a metadata text once it is known whether it is JSON: a refusal
/// with status 400 when it is not, `None` (store it) when it is.
pub fn metadata_check(is_valid_json: bool) -> (r: Option<Reply>)
    ensures
        !is_valid_json ==> (r matches Some(reply) && reply.is_html(STATUS_BAD_REQUEST, paragraph("Invalid JSON format"@))),
        is_valid_json ==> r is None,
{
    if !is_valid_json {
        Some(error_response(STATUS_BAD_REQUEST, "Invalid JSON format"))
    } else {
        None
    }
}

/// The answer to storing user metadata.
pub fn metadata_saved_reply(saved: bool) -> (r: Reply)
    ensures
        saved ==> r.is_html(STATUS_OK, "<p>Metadata saved</p>"@),
        !saved ==> r.is_html(STATUS_INTERNAL_SERVER_ERROR, paragraph("Error saving metadata"@)),
{
    if saved {
        html_ok(owned("<p>Metadata saved</p>"))
    } else {
        error_response(STATUS_INTERNAL_SERVER_ERROR, "Error saving metadata")
    }
}

} // verus!
