//! Commands sent to the RPU.
pub mod sys;
