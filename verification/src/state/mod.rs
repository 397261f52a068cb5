//! The persisted workflow state and its store.
pub mod roadmap;
pub mod store;
pub mod laws;

pub use roadmap::{Fix, Phrase, RoadmapState, RoadmapError};
pub use store::RoadmapStore;
