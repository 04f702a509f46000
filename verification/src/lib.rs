//! Client-side logic for a remote video-processing service: request planning,
//! response classification, bounded retry with exponential backoff, job
//! polling, and decoding of the service's JSON payloads.

pub mod client;
pub mod decode;
pub mod encode;
pub mod errors;
pub mod json;
pub mod lists;
pub mod models;
pub mod poll;
pub mod request;
pub mod retry;
pub mod text;
pub mod time;
pub mod transport;
