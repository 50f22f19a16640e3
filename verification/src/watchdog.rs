//! The watchdog: a probe that the server sends to itself once a minute.
//!
//! The probe is an ordinary call of `ping` with the token of the anonymous
//! user. When it cannot be delivered, the process ends, so that whoever
//! supervises it starts it anew.

use crate::json_rpc::request::RequestView;
use crate::json_rpc::Request;
use crate::text::{decimal_nat, u64_to_decimal};
use vstd::prelude::*;
use vstd::string::*;

verus! {

/// Seconds between two probes.
pub const PERIOD_SECS: u64 = 60;

/// The address that the probe goes to.
pub open spec fn probe_address(port: u16, anonym_token: Seq<char>) -> Seq<char> {
    "https://localhost:"@ + decimal_nat(port as nat) + "/api?token="@ + anonym_token
}

/// The address that the probe goes to:
/// `https://localhost:<port>/api?token=<anonym_token>`.
pub fn probe_url(port: u16, anonym_token: &str) -> (url: String)
    ensures
        url@ == probe_address(port, anonym_token@),
{
    let mut url = String::from_str("https://localhost:");
    let digits = u64_to_decimal(port as u64);
    url.append(digits.as_str());
    url.append("/api?token=");
    url.append(anonym_token);
    url
}

/// The call that the probe makes: `ping`, without parameters, under the id `1`.
pub fn probe_request() -> (request: Request)
    ensures
        request@ == (RequestView { id: Some("1"@), method: "ping"@, params: None }),
{
    Request { id: Some(String::from_str("1")), method: String::from_str("ping"), params: None }
}

/// What the watchdog does after a probe.
#[derive(Clone, Copy, Debug, PartialEq, Eq, Structural)]
pub enum Verdict {
    /// The probe was delivered: log a heartbeat and go on.
    Alive,
    /// The probe could not be delivered: end the process.
    Terminate,
}

/// Judges a probe by whether it was delivered. What the server answered does
/// not count.
pub fn judge(delivered: bool) -> (verdict: Verdict)
    ensures
        verdict == if delivered {
            Verdict::Alive
        } else {
            Verdict::Terminate
        },
{
    if delivered {
        Verdict::Alive
    } else {
        Verdict::Terminate
    }
}

} // verus!
