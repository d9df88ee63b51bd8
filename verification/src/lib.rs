//! Tools that turn OpenStreetMap extracts into a routable graph and a
//! point-of-interest index.
//!
//! The library holds the verified core: transport-mode edge filters, the
//! metric framework, the graph builder with its deduplication and dominance
//! pruning, the spatial matcher, the point-of-interest classifier and the
//! source catalogue. Reading extracts, downloading them and writing tabular
//! output are left to the surrounding application.
pub mod cost;
pub mod filters;
pub mod geometry;
pub mod metrics;
pub mod paths;
pub mod pbf;
pub mod poi;
pub mod prune;
pub mod sources;
pub mod spatial;
pub mod tags;
