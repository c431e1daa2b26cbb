pub mod fetch;
pub mod history;
pub mod tui;
