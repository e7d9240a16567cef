pub mod notion;
