//! Who is asking: the `user_id` cookie, login and the pages that need a user.

use vstd::prelude::*;
use crate::text::{int_text, int_to_text, lemma_int_text_roundtrip, owned, parse_i64, parse_int_text};
use crate::reply::{html_ok, Reply, STATUS_OK};

verus! {

/// The user named by a `user_id` cookie value: the value read as an `i64`.
pub open spec fn cookie_user(cookie: Option<Seq<char>>) -> Option<int> {
    match cookie {
        Some(v) => parse_int_text(v),
        None => None,
    }
}

/// The user id that the `user_id` cookie names, if the cookie is there and holds an `i64`.
pub fn user_id_from_cookie(cookie: Option<&str>) -> (res: Option<i64>)
    ensures
        match res {
            Some(id) => cookie_user(cookie.deep_view()) == Some(id as int),
            None => cookie_user(cookie.deep_view()) is None,
        },
{
    match cookie {
        Some(v) => parse_i64(v),
        None => None,
    }
}

/// How a request without a user is answered: as a dropdown option (the artist
/// list) or as a paragraph (every other page part).
#[derive(Debug, Clone, Copy)]
pub enum Answer {
    Dropdown,
    Paragraph,
}

/// The body sent to a request that names no user.
pub open spec fn not_logged_in_body(answer: Answer) -> Seq<char> {
    match answer {
        Answer::Dropdown => "<option>Not logged in</option>"@,
        Answer::Paragraph => "<p>Not logged in</p>"@,
    }
}

/// The user that a request acts for, or the answer to a request that names none:
/// `Not logged in` with status 200. The request then reads and writes nothing.
pub fn require_user(cookie: Option<&str>, answer: Answer) -> (res: Result<i64, Reply>)
    ensures
        match res {
            Ok(id) => cookie_user(cookie.deep_view()) == Some(id as int),
            Err(r) => cookie_user(cookie.deep_view()) is None && r.is_html(STATUS_OK, not_logged_in_body(answer)),
        },
{
    match user_id_from_cookie(cookie) {
        Some(id) => Ok(id),
        None => Err(html_ok(match answer {
            Answer::Dropdown => owned("<option>Not logged in</option>"),
            Answer::Paragraph => owned("<p>Not logged in</p>"),
        })),
    }
}

/// The landing page sends a user whose cookie holds an id to the application,
/// anyone else to the login page.
pub fn index_redirect(cookie: Option<&str>) -> (r: Reply)
    ensures
        cookie_user(cookie.deep_view()) is Some ==> r.is_redirect("/app"@),
        cookie_user(cookie.deep_view()) is None ==> r.is_redirect("/login"@),
{
    match user_id_from_cookie(cookie) {
        Some(_) => Reply::Redirect { to: owned("/app") },
        None => Reply::Redirect { to: owned("/login") },
    }
}

/// The application page is served when a `user_id` cookie is there at all;
/// without one the answer is a redirect to the login page.
pub fn app_page_redirect(cookie_present: bool) -> (r: Option<Reply>)
    ensures
        !cookie_present ==> (r matches Some(reply) && reply.is_redirect("/login"@)),
        cookie_present ==> r is None,
{
    if cookie_present {
        None
    } else {
        Some(Reply::Redirect { to: owned("/login") })
    }
}

/// What a login leaves behind: the `user_id` cookie to set (path `/`) and the answer.
#[derive(Debug)]
pub struct LoginOutcome {
    pub cookie: Option<String>,
    pub reply: Reply,
}

/// After looking up or creating the user by name: on success the cookie holds
/// the user's id in decimal and the user goes to the application; on failure no
/// cookie is set and the user goes back to the login page.
pub fn login_outcome(user_id: Option<i64>) -> (res: LoginOutcome)
    ensures
        match user_id {
            Some(id) => (res.cookie matches Some(c) && c@ == int_text(id as int)) && res.reply.is_redirect("/app"@),
            None => res.cookie is None && res.reply.is_redirect("/login"@),
        },
{
    match user_id {
        Some(id) => LoginOutcome { cookie: Some(int_to_text(id)), reply: Reply::Redirect { to: owned("/app") } },
        None => LoginOutcome { cookie: None, reply: Reply::Redirect { to: owned("/login") } },
    }
}

/// The cookie that a successful login sets names that same user on every later
/// request: the landing page then leads to the application and the user-specific
/// endpoints act for that user.
pub proof fn lemma_login_cookie_names_user(id: i64)
    ensures
        cookie_user(Some(int_text(id as int))) == Some(id as int),
{
    lemma_int_text_roundtrip(id as int);
}

} // verus!
