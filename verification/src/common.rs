//! Items shared by every stage of the pipeline.
pub mod errors;
