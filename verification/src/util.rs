pub mod error;
pub mod time;
