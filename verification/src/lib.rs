//! Identities of the stages of a staged synchronization pipeline, and the
//! classification of each stage.

pub mod id;
pub mod listing;

pub use crate::id::{Stage, StageId};
