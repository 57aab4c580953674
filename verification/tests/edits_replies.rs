use basscoast_web::edits::{delete_reply, merge_reply, metadata_check, metadata_gate, metadata_saved_reply, rename_reply};
use basscoast_web::reply::{error_response, success_response, Reply};

fn html(r: Reply) -> (u16, String) {
    match r {
        Reply::Html { status, body } => (status, body),
        other => panic!("not html: {:?}", other),
    }
}

#[test]
fn response_helpers() {
    assert_eq!(html(error_response(418, "teapot")), (418, "<p>teapot</p>".to_string()));
    assert_eq!(html(success_response("done")), (200, "<p>done</p>".to_string()));
}

#[test]
fn rename_answers() {
    assert_eq!(html(rename_reply("DJ Foo", true, true)), (200, "<p>Artist renamed to: DJ Foo</p>".to_string()));
    assert_eq!(html(rename_reply("DJ Foo", true, false)), (200, "<p>Rename saved but error refreshing</p>".to_string()));
    assert_eq!(html(rename_reply("DJ Foo", false, true)), (500, "<p>Error saving rename</p>".to_string()));
}

#[test]
fn merge_and_delete_answers() {
    assert_eq!(html(merge_reply(true)), (200, "<p>Artist merged successfully</p>".to_string()));
    assert_eq!(html(merge_reply(false)), (500, "<p>Error merging artist</p>".to_string()));
    assert_eq!(html(delete_reply(true)), (200, "<p>Artist deleted from your view</p>".to_string()));
    assert_eq!(html(delete_reply(false)), (500, "<p>Error deleting artist</p>".to_string()));
}

#[test]
fn metadata_must_be_json() {
    assert!(metadata_gate(r#"{"genre":"techno"}"#).is_none());
    assert!(metadata_gate("[1, 2]").is_none());
    assert_eq!(html(metadata_gate("{genre: techno").unwrap()), (400, "<p>Invalid JSON format</p>".to_string()));
    assert_eq!(html(metadata_saved_reply(true)), (200, "<p>Metadata saved</p>".to_string()));
    assert_eq!(html(metadata_saved_reply(false)), (500, "<p>Error saving metadata</p>".to_string()));
}

#[test]
fn metadata_check_after_parsing() {
    assert!(metadata_check(true).is_none());
    assert_eq!(html(metadata_check(false).unwrap()), (400, "<p>Invalid JSON format</p>".to_string()));
}
