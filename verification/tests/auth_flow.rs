use basscoast_web::auth::{app_page_redirect, index_redirect, login_outcome, require_user, user_id_from_cookie, Answer};
use basscoast_web::reply::Reply;

fn redirect_of(r: &Reply) -> &str {
    match r {
        Reply::Redirect { to } => to.as_str(),
        other => panic!("not a redirect: {:?}", other),
    }
}

#[test]
fn cookie_names_user() {
    assert_eq!(user_id_from_cookie(Some("17")), Some(17));
    assert_eq!(user_id_from_cookie(Some("abc")), None);
    assert_eq!(user_id_from_cookie(None), None);
}

#[test]
fn landing_page_redirects() {
    assert_eq!(redirect_of(&index_redirect(Some("3"))), "/app");
    assert_eq!(redirect_of(&index_redirect(Some("x3"))), "/login");
    assert_eq!(redirect_of(&index_redirect(None)), "/login");
}

#[test]
fn app_page_needs_a_cookie() {
    assert!(app_page_redirect(true).is_none());
    assert_eq!(redirect_of(&app_page_redirect(false).unwrap()), "/login");
}

#[test]
fn requests_without_user_are_refused() {
    match require_user(None, Answer::Paragraph) {
        Err(Reply::Html { status, body }) => {
            assert_eq!(status, 200);
            assert_eq!(body, "<p>Not logged in</p>");
        },
        other => panic!("{:?}", other),
    }
    match require_user(Some("oops"), Answer::Dropdown) {
        Err(Reply::Html { status, body }) => {
            assert_eq!(status, 200);
            assert_eq!(body, "<option>Not logged in</option>");
        },
        other => panic!("{:?}", other),
    }
    assert_eq!(require_user(Some("-4"), Answer::Paragraph).unwrap(), -4);
}

#[test]
fn login_sets_a_cookie_that_names_the_user() {
    let out = login_outcome(Some(1234));
    let cookie = out.cookie.clone().unwrap();
    assert_eq!(cookie, "1234");
    assert_eq!(redirect_of(&out.reply), "/app");
    assert_eq!(user_id_from_cookie(Some(cookie.as_str())), Some(1234));
    assert_eq!(redirect_of(&index_redirect(Some(cookie.as_str()))), "/app");
}

#[test]
fn failed_login_goes_back() {
    let out = login_outcome(None);
    assert!(out.cookie.is_none());
    assert_eq!(redirect_of(&out.reply), "/login");
}
