//! The state of the explorer and the rules by which it changes.

pub mod app;
pub mod events;
pub mod filter;
pub mod guided;
pub mod input;
pub mod listing;
pub mod loading;
pub mod navigate;
pub mod requests;
pub mod search;
pub mod view;

pub use app::App;
pub use filter::{filter_expression, FilterCondition, FilterOp};
pub use guided::{GuidedQueryState, QueryMode};
pub use input::{InputMode, Key, KeyBindings};
pub use view::{AppState, EntityTab, SearchResult, UserTab, View};
