//! Verified client library for an online guessing-game protocol.
//!
//! The library covers the pure core of the protocol: unwrapping the
//! JSONP envelope the service answers with, scraping the server list and
//! the session variables out of the game pages, and the session state
//! machine that drives `start` / `answer` / `back` / `win`.  All network
//! traffic is left to the embedding application, which feeds response
//! bodies back into the verified transition functions.

pub mod enums;
pub mod jsonp;
pub mod models;
pub mod error;
pub mod numbers;
pub mod scraper;
pub mod session;
pub mod text;

pub use session::Akinator;

