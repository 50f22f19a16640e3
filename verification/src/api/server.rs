//! The listener: what it decides for each connection that it accepts.
//!
//! The listener binds to every interface on the configured port and serves
//! each connection on a task of its own. A handshake that fails costs that one
//! connection and nothing else.

use vstd::prelude::*;
use vstd::string::*;

verus! {

/// The listener of the endpoint.
pub struct ApiServer;

/// What becomes of a connection after its TLS handshake.
#[derive(Clone, Copy, Debug, PartialEq, Eq, Structural)]
pub enum Accepted {
    /// Serve the requests of the connection on a task of its own.
    Serve,
    /// Log the failure and drop the connection.
    Drop,
}

/// What a list of keys read from a key file comes to: the key, where the file
/// holds exactly one.
pub open spec fn single_key(keys: Seq<Vec<u8>>) -> Option<Seq<u8>> {
    if keys.len() == 1 {
        Some(keys[0]@)
    } else {
        None
    }
}

impl ApiServer {
    pub fn new() -> (server: Self) {
        Self
    }

    /// Decides what becomes of a connection. The accept loop goes on either
    /// way.
    pub fn after_handshake(&self, succeeded: bool) -> (accepted: Accepted)
        ensures
            accepted == if succeeded {
                Accepted::Serve
            } else {
                Accepted::Drop
            },
    {
        if succeeded {
            Accepted::Serve
        } else {
            Accepted::Drop
        }
    }

    /// Picks the private key out of the keys that the key file holds. The
    /// file must hold exactly one.
    pub fn private_key(&self, keys: Vec<Vec<u8>>) -> (res: Result<Vec<u8>, String>)
        ensures
            match single_key(keys@) {
                Some(key) => res matches Ok(k) && k@ == key,
                None => res matches Err(reason) && reason@ == "expected a single private key"@,
            },
    {
        let mut keys = keys;
        if keys.len() != 1 {
            return Err(String::from_str("expected a single private key"));
        }
        Ok(keys.pop().unwrap())
    }
}

impl Default for ApiServer {
    fn default() -> (server: Self) {
        Self::new()
    }
}

} // verus!
