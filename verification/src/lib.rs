//! A URL-shortening store: it maps long URLs to short random codes and back.

pub mod code;
pub mod guarantees;
pub mod handlers;
pub mod long_url;
pub mod status;
pub mod store;

pub use status::{Error, StatusCode};
