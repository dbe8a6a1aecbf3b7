//! What the dashboard promises, stated over what goes in and what comes out.

pub mod batch;
pub mod dashboard;
pub mod details;
pub mod keys;
pub mod lists;
pub mod logs;
pub mod panes;
pub mod paths;
pub mod rows;
pub mod screen;
pub mod shell;
pub mod sources;
pub mod start;
pub mod tables;
pub mod text;
