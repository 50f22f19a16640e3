//! The settings of the process, as they stand once the configuration file is
//! read. They never change afterwards.

use crate::text::u64_to_decimal;
use vstd::prelude::*;
use vstd::string::*;

verus! {

/// All settings.
#[derive(Debug)]
pub struct Config {
    pub server: Server,
    pub frontend: Frontend,
    pub postgres: Postgres,
    pub telegram_bot: TelegramBot,
    pub watchdog: Watchdog,
}

/// The endpoint.
#[derive(Debug)]
pub struct Server {
    pub port: u16,
    /// Whether anonymous callers may create content.
    pub anonym_allowed: bool,
    pub ssl: Ssl,
}

/// Where the certificate chain and the private key lie.
#[derive(Debug)]
pub struct Ssl {
    pub cert: String,
    pub key: String,
}

/// The site that the links in notifications point to.
#[derive(Debug)]
pub struct Frontend {
    pub domen: String,
}

/// The database.
#[derive(Debug)]
pub struct Postgres {
    pub host: String,
    pub port: u16,
    pub username: String,
    pub password: String,
    pub database: String,
}

/// The chat API that notifications go to.
#[derive(Debug)]
pub struct TelegramBot {
    pub token: String,
    pub url: String,
    pub channel: String,
    pub admin_chat_id: String,
    pub enabled: bool,
}

/// The self-probe.
#[derive(Debug)]
pub struct Watchdog {
    pub enabled: bool,
    pub anonym_token: String,
}

impl Postgres {
    /// The connection string of the database.
    pub open spec fn spec_database_url(&self) -> Seq<char> {
        "postgres://"@ + self.username@ + ":"@ + self.password@ + "@localhost/"@ + self.database@
    }

    /// The connection string of the database:
    /// `postgres://<username>:<password>@localhost/<database>`.
    pub fn database_url(&self) -> (url: String)
        ensures
            url@ == self.spec_database_url(),
    {
        let mut url = String::from_str("postgres://");
        url.append(self.username.as_str());
        url.append(":");
        url.append(self.password.as_str());
        url.append("@localhost/");
        url.append(self.database.as_str());
        url
    }
}

impl Server {
    /// The address that the listener binds to: every interface, on the
    /// configured port.
    pub open spec fn spec_bind_address(&self) -> Seq<char> {
        "0.0.0.0:"@ + crate::text::decimal_nat(self.port as nat)
    }

    /// The address that the listener binds to.
    pub fn bind_address(&self) -> (address: String)
        ensures
            address@ == self.spec_bind_address(),
    {
        let mut address = String::from_str("0.0.0.0:");
        let port = u64_to_decimal(self.port as u64);
        address.append(port.as_str());
        address
    }
}

} // verus!
