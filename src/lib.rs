pub mod anki;
pub mod config;
pub mod json;
pub mod laws;
pub mod models;
pub mod translation;
