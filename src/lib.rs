//! Harvesting, filtering and enrichment of an artist's songs from a paginated
//! song catalog.
pub mod artist;
pub mod enrich;
pub mod extract;
pub mod files;
pub mod filters;
pub mod harvest;
pub mod responses;
pub mod run;
pub mod song;
pub mod text;
