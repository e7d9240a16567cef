pub mod cache;
pub mod commands;
pub mod integration;
pub mod json;
pub mod text;
