//! Verified logic of an interactive Git workflow helper.
pub mod config;
pub mod flow;
pub mod history;
pub mod logview;
pub mod menu;
pub mod merge;
pub mod ops;
pub mod protocol;
pub mod records;
pub mod runs;
pub mod session;
pub mod setup;
pub mod startup;
pub mod text;
pub mod update;
