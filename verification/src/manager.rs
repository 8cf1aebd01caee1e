//! The endpoint descriptor held by the connection manager.

use vstd::prelude::*;
use vstd::string::StringExecFns;
use crate::protocol::ConnectionProtocol;

verus! {

/// What a manager is configured with, as plain values.
pub struct Endpoint {
    /// The transport scheme.
    pub protocol: ConnectionProtocol,
    /// The address, `host[:port][/path]`, exactly as it was given.
    pub address: Seq<char>,
    /// The user name to sign in with.
    pub username: Seq<char>,
    /// The password to sign in with.
    pub password: Seq<char>,
}

impl Endpoint {
    /// The fully qualified URI: the scheme prefix, then the address, with
    /// nothing altered or inserted.
    pub open spec fn uri(self) -> Seq<char> {
        self.protocol.prefix() + self.address
    }
}

/// The URI of an endpoint is its scheme prefix followed by its address: it
/// is as long as the two together, starts with the prefix, goes on with the
/// address, and so holds no character that is in neither.
pub proof fn law_uri_is_prefix_then_address(endpoint: Endpoint)
    ensures
        endpoint.uri().len() == endpoint.protocol.prefix().len() + endpoint.address.len(),
        endpoint.uri().subrange(0, endpoint.protocol.prefix().len() as int)
            == endpoint.protocol.prefix(),
        endpoint.uri().subrange(
            endpoint.protocol.prefix().len() as int,
            endpoint.uri().len() as int,
        ) == endpoint.address,
{
}

/// A connection manager for one endpoint, immutable once built.
pub struct SurrealDBConnectionManager {
    protocol: ConnectionProtocol,
    db_url: &'static str,
    db_user: &'static str,
    db_password: &'static str,
}

impl View for SurrealDBConnectionManager {
    type V = Endpoint;

    closed spec fn view(&self) -> Endpoint {
        Endpoint {
            protocol: self.protocol,
            address: self.db_url@,
            username: self.db_user@,
            password: self.db_password@,
        }
    }
}

impl SurrealDBConnectionManager {
    /// Creates a manager that uses the default scheme, plaintext WebSocket.
    pub fn new(db_url: &'static str, db_user: &'static str, db_password: &'static str) -> (m: Self)
        ensures
            m@ == (Endpoint {
                protocol: ConnectionProtocol::Ws,
                address: db_url@,
                username: db_user@,
                password: db_password@,
            }),
    {
        Self { protocol: ConnectionProtocol::Ws, db_url, db_user, db_password }
    }

    /// Creates a manager that uses the given scheme.
    pub fn new_with_protocol(
        protocol: ConnectionProtocol,
        db_url: &'static str,
        db_user: &'static str,
        db_password: &'static str,
    ) -> (m: Self)
        ensures
            m@ == (Endpoint {
                protocol,
                address: db_url@,
                username: db_user@,
                password: db_password@,
            }),
    {
        Self { protocol, db_url, db_user, db_password }
    }

    /// The user name to sign in with.
    pub(crate) fn username(&self) -> (name: &'static str)
        ensures
            name@ == self@.username,
    {
        self.db_user
    }

    /// The password to sign in with.
    pub(crate) fn password(&self) -> (word: &'static str)
        ensures
            word@ == self@.password,
    {
        self.db_password
    }

    /// Composes the URI to dial.
    pub fn connection_uri(&self) -> (uri: String)
        ensures
            uri@ == self@.uri(),
    {
        let mut uri = self.protocol.as_str().to_owned();
        uri.append(self.db_url);
        uri
    }
}

} // verus!
