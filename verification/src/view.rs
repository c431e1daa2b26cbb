pub mod app;
pub mod laws;
pub mod pages;
