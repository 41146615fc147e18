//! Guided queries against an entity catalog: building the query text from
//! discrete choices, normalising the JSON that comes back into a table, and the
//! state of the explorer that drives both.

pub mod api;
pub mod config;
pub mod export;
pub mod fetchxml;
pub mod json;
pub mod models;
pub mod sorting;
pub mod text;
pub mod ui;
