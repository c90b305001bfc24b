//! A typed client for the Last.fm web service: requests are built as URLs, and the replies
//! are told apart as a result, an error that the service reports, or a failure.

pub mod client;
pub mod decode;
pub mod error;
pub mod json;
pub mod laws;
pub mod model;
pub mod query;
pub mod reply;
pub mod request;
pub mod text;
pub mod user;

pub use client::Client;
pub use error::{ClassifiedError, ParseFailure, ServiceError, TransportFailure};
pub use model::Attributes;
pub use request::RequestBuilder;
pub use user::top_albums::TopAlbums;
pub use user::{Album, Artist, Period};
