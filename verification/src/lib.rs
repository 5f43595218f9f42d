//! Data shaping for a terminal splash dashboard: the pure half of each fetcher
//! (option resolution, request composition, ranking, formatting and rendering of
//! payload bodies), kept apart from the network and repository access.

pub mod digest;
pub mod fetcher;
pub mod payload;
pub mod rank;
pub mod render;
pub mod samples;
pub mod text;
pub mod time;
