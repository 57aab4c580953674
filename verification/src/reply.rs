//! What a request is answered: a status and an HTML, plain-text or JSON body, or a redirect.

use vstd::prelude::*;
use crate::text::owned;

verus! {

pub const STATUS_OK: u16 = 200;
pub const STATUS_BAD_REQUEST: u16 = 400;
pub const STATUS_NOT_FOUND: u16 = 404;
pub const STATUS_INTERNAL_SERVER_ERROR: u16 = 500;
pub const STATUS_BAD_GATEWAY: u16 = 502;
pub const STATUS_SERVICE_UNAVAILABLE: u16 = 503;

/// The card fields that the 3D viewer reads, sent as a JSON object.
#[derive(Debug)]
pub struct CardJson {
    pub scryfall_id: String,
    pub name: String,
    pub rarity: String,
    pub type_line: String,
    pub image_uri: String,
}

/// The answer to one request.
#[derive(Debug)]
pub enum Reply {
    Html { status: u16, body: String },
    Text { status: u16, body: String },
    Json(CardJson),
    Redirect { to: String },
}

impl Reply {
    /// An HTML answer with this status and body.
    pub open spec fn is_html(self, status: u16, body: Seq<char>) -> bool {
        match self {
            Reply::Html { status: s, body: b } => s == status && b@ == body,
            _ => false,
        }
    }

    /// A plain-text answer with this status and body.
    pub open spec fn is_text(self, status: u16, body: Seq<char>) -> bool {
        match self {
            Reply::Text { status: s, body: b } => s == status && b@ == body,
            _ => false,
        }
    }

    /// A redirect to this location.
    pub open spec fn is_redirect(self, to: Seq<char>) -> bool {
        match self {
            Reply::Redirect { to: t } => t@ == to,
            _ => false,
        }
    }
}

/// An HTML answer with status 200.
pub fn html_ok(body: String) -> (r: Reply)
    ensures
        r.is_html(STATUS_OK, body@),
{
    Reply::Html { status: STATUS_OK, body }
}

/// The body that `error_response` and `success_response` send for a message.
pub open spec fn paragraph(message: Seq<char>) -> Seq<char> {
    "<p>"@ + message + "</p>"@
}

/// The message in a paragraph, sent with the given status.
pub fn error_response(status: u16, message: &str) -> (r: Reply)
    ensures
        r.is_html(status, paragraph(message@)),
{
    let mut body: String = owned("<p>");
    body.append(message);
    body.append("</p>");
    Reply::Html { status, body }
}

/// The message in a paragraph, sent with status 200.
pub fn success_response(message: &str) -> (r: Reply)
    ensures
        r.is_html(STATUS_OK, paragraph(message@)),
{
    error_response(STATUS_OK, message)
}

} // verus!
