//! Configuration of the two daemons, as plain values.
//!
//! Socket addresses and filesystem paths are carried as text: resolving them
//! against the operating system is the shell's work, done once at startup.

use vstd::prelude::*;

use crate::TunnelError;

verus! {

/// The congestion-controller algorithm a QUIC endpoint is tuned with.
#[derive(Debug, Clone, Copy, PartialEq, Eq, Structural)]
pub enum CongestionController {
    Bbr,
    Cubic,
    NewReno,
}

impl Default for CongestionController {
    /// The default congestion controller is BBR.
    fn default() -> (r: Self)
        ensures
            r == CongestionController::Bbr,
    {
        CongestionController::Bbr
    }
}

/// A backend endpoint: a socket address or a filesystem path of a
/// Unix-domain socket, both as text.
#[derive(Debug, Clone, PartialEq, Eq)]
pub enum Addr {
    Socket(String),
    Path(String),
}

/// The client section: where to accept local TCP, where the server's QUIC
/// endpoint is, the certificate name to expect, and the trust anchor.
#[derive(Debug, PartialEq, Eq)]
pub struct Client {
    pub local_addr: String,
    pub remote_addr: String,
    pub domain_name: String,
    pub ca_certificate: String,
    pub congestion_controller: CongestionController,
}

/// The server section: where to bind QUIC, the backends to forward to, and
/// the certificate chain and private key to present.
#[derive(Debug, PartialEq, Eq)]
pub struct Server {
    pub local_addr: String,
    pub remote_addrs: Vec<Addr>,
    pub server_cert: String,
    pub server_key: String,
    pub congestion_controller: CongestionController,
}

/// A whole configuration: at least one of the two sections is present.
#[derive(Debug, PartialEq, Eq)]
pub struct Config {
    pub client: Option<Client>,
    pub server: Option<Server>,
}

impl Config {
    /// Accepts a configuration exactly when it names a client section, a
    /// server section, or both.
    pub fn new(client: Option<Client>, server: Option<Server>) -> (r: Result<Config, TunnelError>)
        ensures
            r is Ok <==> (client is Some || server is Some),
            r matches Ok(c) ==> c.client == client && c.server == server,
            r matches Err(e) ==> e == TunnelError::MissingSection,
    {
        if client.is_none() && server.is_none() {
            Err(TunnelError::MissingSection)
        } else {
            Ok(Config { client, server })
        }
    }
}

} // verus!
