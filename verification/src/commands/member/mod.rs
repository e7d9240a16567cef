pub mod action;
pub mod course;
pub mod law;
pub mod message;
pub mod register;
pub mod roster;
pub mod state;
pub mod step;
