//! Verified core of the Bass Coast artist / card mapping web application.
//!
//! The library decides what each HTTP endpoint answers from the values that the
//! server reads (cookies, form fields, database rows, card service replies) and
//! renders the HTML it sends back.

pub mod text;
pub mod reply;
pub mod models;
pub mod json;
pub mod mtg;
pub mod auth;
pub mod edits;
pub mod artists;
pub mod enrich;
