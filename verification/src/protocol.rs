//! The closed set of transport schemes and their URI prefixes.

use vstd::prelude::*;

verus! {

/// The transport and security combination used to reach the endpoint.
#[derive(Debug, Clone, Copy)]
pub enum ConnectionProtocol {
    /// Plaintext HTTP.
    Http,
    /// HTTP over TLS.
    Https,
    /// Plaintext WebSocket stream.
    Ws,
    /// WebSocket stream over TLS.
    Wss,
}

impl ConnectionProtocol {
    /// The characters that a URI of this scheme starts with.
    pub open spec fn prefix(self) -> Seq<char> {
        match self {
            ConnectionProtocol::Http => "http://"@,
            ConnectionProtocol::Https => "https://"@,
            ConnectionProtocol::Ws => "ws://"@,
            ConnectionProtocol::Wss => "wss://"@,
        }
    }

    /// Returns the scheme prefix as a static string slice.
    pub fn as_str(&self) -> (s: &'static str)
        ensures
            s@ == self.prefix(),
    {
        match self {
            ConnectionProtocol::Http => "http://",
            ConnectionProtocol::Https => "https://",
            ConnectionProtocol::Ws => "ws://",
            ConnectionProtocol::Wss => "wss://",
        }
    }
}

} // verus!
