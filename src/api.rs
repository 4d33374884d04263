pub mod endpoints;
pub mod entry;
pub mod message;
