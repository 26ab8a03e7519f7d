//! Startup configuration: the listen port and the CORS policy, built once
//! from the settings that the environment gives (or their defaults) and fixed
//! for the life of the process.

use vstd::prelude::*;
use crate::origins::{origin_allowed, origin_list, parse_origin_list, string_views};

verus! {

/// The port listened on when none is set.
pub const DEFAULT_PORT: &'static str = "8080";

/// The allow-list used when none is set: the development and production
/// front ends.
pub const DEFAULT_ALLOWED_ORIGINS: &'static str = "http://127.0.0.1:5002,http://localhost:5002,http://127.0.0.1:4200,http://localhost:4200,https://completely-understood-vo-a0f23.web.app";

/// The interface that the server binds to: all of them.
pub const BIND_HOST: &'static str = "0.0.0.0";

/// Cross-origin requests carry credentials.
pub const SUPPORTS_CREDENTIALS: bool = true;

/// The text of a setting, or of its default when it is not set.
pub open spec fn setting_or(setting: Option<&str>, default: &str) -> Seq<char> {
    match setting {
        Some(s) => s@,
        None => default@,
    }
}

/// The configuration of the service.
pub struct ServerConfig {
    /// The TCP port to listen on, as it was set.
    pub port: String,
    /// The origins whose cross-origin requests are allowed.
    pub allowed_origins: Vec<String>,
}

impl ServerConfig {
    /// Builds the configuration from the port setting and the comma-separated
    /// allow-list setting; each one that is `None` takes its default.
    pub fn from_settings(port: Option<&str>, allowed_origins: Option<&str>) -> (r: ServerConfig)
        ensures
            r.port@ == setting_or(port, DEFAULT_PORT),
            string_views(r.allowed_origins@) == origin_list(
                setting_or(allowed_origins, DEFAULT_ALLOWED_ORIGINS),
            ),
    {
        let port_text = match port {
            Some(p) => p,
            None => DEFAULT_PORT,
        };
        let origins_text = match allowed_origins {
            Some(o) => o,
            None => DEFAULT_ALLOWED_ORIGINS,
        };
        ServerConfig {
            port: String::from_str(port_text),
            allowed_origins: parse_origin_list(origins_text),
        }
    }

    /// The address to bind: `0.0.0.0:<port>`.
    pub fn bind_address(&self) -> (r: String)
        ensures
            r@ == BIND_HOST@ + seq![':'] + self.port@,
    {
        let mut r = String::from_str(BIND_HOST);
        r.append(":");
        proof {
            reveal_strlit(":");
        }
        r.append(self.port.as_str());
        r
    }

    /// Whether a request from `origin` gets the CORS allow-origin header:
    /// exactly when `origin` is on the allow-list.
    pub fn allows_origin(&self, origin: &str) -> (r: bool)
        ensures
            r == string_views(self.allowed_origins@).contains(origin@),
    {
        origin_allowed(&self.allowed_origins, origin)
    }
}

/// The methods allowed on cross-origin requests.
pub open spec fn cors_methods() -> Seq<Seq<char>> {
    seq![
        seq!['G', 'E', 'T'],
        seq!['P', 'O', 'S', 'T'],
        seq!['P', 'U', 'T'],
        seq!['D', 'E', 'L', 'E', 'T', 'E'],
        seq!['O', 'P', 'T', 'I', 'O', 'N', 'S'],
    ]
}

/// The request headers allowed on cross-origin requests.
pub open spec fn cors_headers() -> Seq<Seq<char>> {
    seq![
        seq!['a', 'u', 't', 'h', 'o', 'r', 'i', 'z', 'a', 't', 'i', 'o', 'n'],
        seq!['a', 'c', 'c', 'e', 'p', 't'],
        seq!['c', 'o', 'n', 't', 'e', 'n', 't', '-', 't', 'y', 'p', 'e'],
    ]
}

/// The texts of a list of string slices.
pub open spec fn str_views(v: Seq<&str>) -> Seq<Seq<char>> {
    v.map_values(|s: &str| s@)
}

/// The methods allowed on cross-origin requests: GET, POST, PUT, DELETE and
/// OPTIONS.
pub fn allowed_methods() -> (r: Vec<&'static str>)
    ensures
        str_views(r@) == cors_methods(),
{
    let mut r: Vec<&'static str> = Vec::new();
    r.push("GET");
    r.push("POST");
    r.push("PUT");
    r.push("DELETE");
    r.push("OPTIONS");
    proof {
        reveal_strlit("GET");
        reveal_strlit("POST");
        reveal_strlit("PUT");
        reveal_strlit("DELETE");
        reveal_strlit("OPTIONS");
        assert(r@[0]@ =~= cors_methods()[0]);
        assert(r@[1]@ =~= cors_methods()[1]);
        assert(r@[2]@ =~= cors_methods()[2]);
        assert(r@[3]@ =~= cors_methods()[3]);
        assert(r@[4]@ =~= cors_methods()[4]);
    }
    assert(str_views(r@) =~= cors_methods());
    r
}

/// The request headers allowed on cross-origin requests: Authorization,
/// Accept and Content-Type.
pub fn allowed_headers() -> (r: Vec<&'static str>)
    ensures
        str_views(r@) == cors_headers(),
{
    let mut r: Vec<&'static str> = Vec::new();
    r.push("authorization");
    r.push("accept");
    r.push("content-type");
    proof {
        reveal_strlit("authorization");
        reveal_strlit("accept");
        reveal_strlit("content-type");
        assert(r@[0]@ =~= cors_headers()[0]);
        assert(r@[1]@ =~= cors_headers()[1]);
        assert(r@[2]@ =~= cors_headers()[2]);
    }
    assert(str_views(r@) =~= cors_headers());
    r
}

} // verus!
