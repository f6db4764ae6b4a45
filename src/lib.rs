//! Request construction for the Sell.app REST API.
//!
//! Every API operation is turned into an [`ApiRequest`]: a verb, a path under
//! the API base URL, the headers to send and an optional JSON body. Sending it
//! is left to the caller's HTTP stack; [`complete`] then sorts what came back
//! into a response or one of the two error kinds.
pub mod client;
pub mod error;
pub mod headers;
pub mod request;

pub use client::{init, SellAppClient};
pub use error::{complete, ClientError, ConfigError};
pub use headers::{Header, ACCEPT, AUTHORIZATION, CONTENT_TYPE, JSON};
pub use request::{ApiRequest, Method, RequestModel, BASE_URL};
