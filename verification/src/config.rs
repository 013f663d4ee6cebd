//! Tunnel configuration and credential selection.

use vstd::prelude::*;

verus! {

/// The credential actually presented to the server, chosen from the
/// fields of a [`TunnelConfig`].
#[derive(Clone, PartialEq, Eq, Debug)]
pub enum AuthMethod {
    /// Public-key authentication from in-memory key material.
    PrivateKey(String),
    /// Password authentication.
    Password(String),
}

/// Everything a tunnel needs to reach and authenticate to the server.
/// Immutable once handed to `start`.
#[derive(Clone, PartialEq, Eq, Debug)]
pub struct TunnelConfig {
    /// Remote host to connect the transport socket to.
    pub host: String,
    /// Remote port of the server.
    pub port: u16,
    /// Account name to authenticate as.
    pub username: String,
    /// Password credential, if supplied.
    pub password: Option<String>,
    /// In-memory private-key credential, if supplied.
    pub private_key: Option<String>,
}

impl TunnelConfig {
    /// Picks the credential to present: a private key always wins over a
    /// password, and password authentication is attempted only when no
    /// key was supplied. With neither, no authentication is attempted.
    pub fn auth_method(&self) -> (m: Option<AuthMethod>)
        ensures
            self.private_key matches Some(k) ==> m == Some(AuthMethod::PrivateKey(k)),
            self.private_key is None ==> (self.password matches Some(p) ==> m == Some(
                AuthMethod::Password(p),
            )),
            self.private_key is None && self.password is None ==> m is None,
    {
        match &self.private_key {
            Some(key) => Some(AuthMethod::PrivateKey(key.clone())),
            None => match &self.password {
                Some(pw) => Some(AuthMethod::Password(pw.clone())),
                None => None,
            },
        }
    }
}

} // verus!
