//! The containers tab.

pub mod actions;
pub mod inspect;
pub mod progress;
pub mod rocket;
pub mod shell;
pub mod summary;
pub mod util;
pub mod view;
