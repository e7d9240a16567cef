pub mod api;
pub mod member;
pub mod project;
