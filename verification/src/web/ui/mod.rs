//! What the live view components of a page decide.

pub mod history;
pub mod prompt;
