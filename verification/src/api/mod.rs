//! The endpoint: its error model, access policy, token cache and router.


pub mod authorizer;
pub mod error;
pub mod registry;
pub mod router;
pub mod server;
pub mod user_cache;

pub use error::{make_error, make_error_data, Error};
