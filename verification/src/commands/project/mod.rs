pub mod action;
pub mod channel;
pub mod course;
pub mod law;
pub mod message;
pub mod register;
pub mod state;
pub mod step;
