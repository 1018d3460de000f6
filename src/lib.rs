//! A client library for the numbered web comics published at xkcd.com.
//!
//! The library decides: it turns a request for a comic (by number, the latest one,
//! or a random one) into the addresses to fetch, checks the requested number against
//! the latest published one, and decodes each JSON response into a [`Comic`]. The
//! network itself is left to the caller, who hands each response back to a
//! [`Resolution`] until it finishes.
pub mod calendar;
pub mod comics;
pub mod errors;
pub mod explanation;
pub mod json;
pub mod numerals;
pub mod resolver;

pub use calendar::ComicDate;
pub use comics::{Comic, ResponseFields, decode_fields, parse_comic};
pub use errors::{Error, Number, Request};
pub use explanation::{Explanation, parse_html};
pub use resolver::{Action, Goal, Resolution, Stage};
