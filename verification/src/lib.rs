//! Adapter logic for the MangaFire site: what to ask the site for, and what
//! the answer means.
//!
//! The library never touches the network. For each request of the host it
//! names the address to fetch (`site`), takes what the selectors yield on the
//! fetched page as plain values (`document`), and builds the records for the
//! host (`model`): catalog pages (`catalog`), title metadata (`detail`),
//! chapter lists (`chapters`), page lists (`pages`) and the target of an
//! outside address (`deeplink`). Every function is verified against a
//! contract over sequences of characters (`text`).

pub mod catalog;
pub mod chapters;
pub mod deeplink;
pub mod detail;
pub mod document;
pub mod model;
pub mod pages;
pub mod site;
pub mod text;
