pub mod backend;
pub mod text;
pub mod view;
