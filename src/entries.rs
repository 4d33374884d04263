pub mod json;
pub mod message;
