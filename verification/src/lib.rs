//! Vandalism alert level for a wiki, computed from recent edit summaries.

pub mod classifier;
pub mod decimal;
pub mod level;
pub mod matcher;
pub mod published;
pub mod rate;
pub mod reconcile;
pub mod report;
pub mod text;
