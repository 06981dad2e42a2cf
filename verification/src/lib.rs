//! Task-tracking core: lifecycle states, minimal-diff updates, and search
//! normalization for a task store, with verified contracts.

pub mod error;
pub mod laws;
pub mod model;
pub mod parse;
pub mod pattern;
pub mod resolver;
pub mod service;
pub mod text;
