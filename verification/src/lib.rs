//! Scraping of a music list page into normalized song records.
//!
//! The page is an HTML document in which each entry is a section with a title
//! element and a body element. [`scrape::scrape`] turns the text of the page
//! into its songs; [`candidate::song_from_candidate`] holds the rules for one
//! entry, and [`encoding::to_utf8`] brings the page from its legacy encoding
//! to UTF-8 beforehand.

pub mod candidate;
pub mod date;
pub mod encoding;
pub mod laws;
pub mod markup;
pub mod property;
pub mod scrape;
pub mod song;
pub mod text;

pub use candidate::{Body, Candidate};
pub use scrape::scrape;
pub use song::{Skip, Song};
