pub mod action;
pub mod definition;
pub mod dispatch;
pub mod event;
pub mod guild;
pub mod member;
pub mod option;
pub mod project;
