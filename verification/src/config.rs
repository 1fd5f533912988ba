//! Server configuration, resolved from the values of environment variables.
use vstd::prelude::*;
use vstd::string::*;

use crate::text::{decimal, decimal_string, lemma_decimal_parses, parse_unsigned, parse_unsigned_spec};

verus! {

/// Application-wide configuration.
///
/// Every field has a default, so the server starts without any variable set.
#[derive(Debug)]
pub struct Config {
    pub host: String,
    pub port: u16,
    pub frontend_url: String,
}

/// The port a configuration gets from the text of `PORT`: the number it
/// parses to as a `u16`, else 8080.
pub open spec fn port_from(port: Option<Seq<char>>) -> u16 {
    match port {
        Some(p) => match parse_unsigned_spec(p, 65535) {
            Some(v) => v as u16,
            None => 8080,
        },
        None => 8080,
    }
}

pub open spec fn opt_view(v: Option<String>) -> Option<Seq<char>> {
    match v {
        Some(s) => Some(s@),
        None => None,
    }
}

impl Config {
    /// Build a configuration from the values of `HOST`, `PORT` and
    /// `FRONTEND_URL` (`None` for an unset variable).  Missing or invalid
    /// values fall back to `127.0.0.1`, `8080` and `http://localhost:3000`.
    pub fn from_values(host: Option<String>, port: Option<String>, frontend_url: Option<String>) -> (r: Config)
        ensures
            r.host@ == (match host { Some(h) => h@, None => "127.0.0.1"@ }),
            r.port == port_from(opt_view(port)),
            r.frontend_url@ == (match frontend_url { Some(f) => f@, None => "http://localhost:3000"@ }),
    {
        let host = match host {
            Some(h) => h,
            None => String::from_str("127.0.0.1"),
        };
        let port = match port {
            Some(p) => match parse_unsigned(p.as_str(), 65535) {
                Some(v) => v as u16,
                None => 8080,
            },
            None => 8080,
        };
        let frontend_url = match frontend_url {
            Some(f) => f,
            None => String::from_str("http://localhost:3000"),
        };
        Config { host, port, frontend_url }
    }

    /// The bind address expected by the HTTP server: `host:port`.
    pub fn bind_addr(&self) -> (r: String)
        ensures
            r@ == self.host@ + ":"@ + decimal(self.port as nat),
    {
        let mut r = self.host.clone();
        r.append(":");
        let p = decimal_string(self.port as u64);
        r.append(p.as_str());
        r
    }
}


/// A port written as `bind_addr` writes it reads back as the same port:
/// `PORT` set to the decimal rendering of `p` configures port `p`.
pub proof fn lemma_port_round_trip(p: u16)
    ensures
        port_from(Some(decimal(p as nat))) == p,
{
    lemma_decimal_parses(p as nat, 65535);
}

} // verus!
