//! Clip lifecycle core of a text-clip sharing service.

pub mod data;
pub mod domain;
pub mod lifecycle;
pub mod service;
pub mod web;

pub use domain::clip::field::short_code::ShortCode;
pub use service::ServiceError;
