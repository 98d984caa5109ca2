//! Core of a clip-sharing service: validated clip fields, the hit-count
//! aggregator that coalesces view events into batched writes, and the
//! maintenance schedule that purges expired clips.

pub mod data;
pub mod domain;

pub use domain::clip::field::ShortCode;
pub use domain::clip::{Clip, ClipError};
pub use domain::time::Time;
pub use service::ServiceError;

pub mod lifecycle;
pub mod service;
pub mod web;
