//! Client-side logic for a remote text-generation service: model references,
//! generation settings and their wire form, and decoding of service replies.

pub mod api;
pub mod client;
pub mod error;
pub mod model;
pub mod response;

pub use error::{ClientError, ErrorKind};
pub use model::Model;
