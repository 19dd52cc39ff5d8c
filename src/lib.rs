//! A self-hosted catalog of owned games: the catalog store with its
//! deduplicating merge, the decisions of the cover-art fetch pipeline and of
//! the image transcoder, and the HTTP route table, all stated and proved.
pub mod api;
pub mod catalog;
pub mod cover;
pub mod error;
pub mod fetch;
pub mod layout;
pub mod logging;
pub mod text;
pub mod transcode;
pub mod types;
