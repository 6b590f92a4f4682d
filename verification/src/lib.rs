//! Core of an interactive multi-target log tailer: tagged log messages from
//! many concurrent stream workers are fanned into one aggregator, filtered by
//! filter/exclude patterns, retained in a bounded FIFO history, and searched
//! case-insensitively while the live feed is paused.

pub mod aggregator;
pub mod filter;
pub mod history;
pub mod models;
pub mod render;
pub mod text;
pub mod worker;
