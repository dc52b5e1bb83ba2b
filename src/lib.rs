pub mod api;
pub mod compose;
pub mod config;
pub mod money;
pub mod policy;
pub mod select;
pub mod watcher;
