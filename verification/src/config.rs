//! The configuration of the service.

use vstd::prelude::*;

verus! {

/// The port on which the service listens where none is configured.
pub const DEFAULT_PORT: u16 = 3000;

/// Where the store is and on which port to listen.
#[derive(Debug, PartialEq, Eq)]
pub struct Config {
    /// The connection string of the store.
    pub database_url: String,
    /// The port of the HTTP server.
    pub server_port: u16,
}

/// The port on which the service listens where none is configured.
pub fn default_port() -> (port: u16)
    ensures
        port == DEFAULT_PORT,
{
    DEFAULT_PORT
}

impl Config {
    /// The configuration for the store at `database_url`, with the port
    /// given or, where none is given, the default port.
    pub fn new(database_url: String, server_port: Option<u16>) -> (config: Config)
        ensures
            config.database_url == database_url,
            config.server_port == match server_port {
                Some(port) => port,
                None => DEFAULT_PORT,
            },
    {
        Config {
            database_url,
            server_port: match server_port {
                Some(port) => port,
                None => default_port(),
            },
        }
    }

    /// The address on which the server listens: every interface, at the
    /// configured port.
    pub fn listen_address(&self) -> (address: (u8, u8, u8, u8, u16))
        ensures
            address == (0u8, 0u8, 0u8, 0u8, self.server_port),
    {
        (0, 0, 0, 0, self.server_port)
    }
}

} // verus!
