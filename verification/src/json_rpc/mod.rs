//! The request and response envelopes of the endpoint.

pub mod error;
pub mod request;
pub mod response;
pub mod value;

pub use error::Error;
pub use request::Request;
pub use response::Response;
