//! What the tabs look like: texts, styles and places, for the terminal to draw.

pub mod compose;
pub mod containers;
pub mod images;
pub mod networks;
pub mod page;
pub mod panes;
pub mod shell;
pub mod volumes;
