//! The logic of a terminal dashboard for Docker.

pub mod app;
pub mod chart;
pub mod compose;
pub mod containers;
pub mod docker;
pub mod draw;
pub mod geometry;
pub mod grid;
pub mod images;
pub mod json;
pub mod key;
pub mod laws;
pub mod list;
pub mod log_line;
pub mod logs;
pub mod networks;
pub mod num;
pub mod order;
pub mod output;
pub mod pull;
pub mod screen;
pub mod splash;
pub mod stats;
pub mod text;
pub mod theme;
pub mod ui;
pub mod units;
pub mod volumes;
