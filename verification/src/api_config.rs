//! Configuration records for the client and server front ends, with their
//! merge rules.

use vstd::prelude::*;

verus! {

/// Configuration of the client front end.
pub struct ClientConfig {
    /// The address of the server to connect to.
    pub server_address: String,
}

impl ClientConfig {
    /// Merges with a fallback configuration: the client's own address always
    /// wins.
    pub fn merge(self, other: ClientConfig) -> (r: ClientConfig)
        ensures
            r.server_address@ == self.server_address@,
    {
        ClientConfig { server_address: self.server_address }
    }

    /// The default server address.
    pub fn new_default() -> (r: ClientConfig)
        ensures
            r.server_address@ == "http://[::1]:42069"@,
    {
        ClientConfig { server_address: "http://[::1]:42069".to_owned() }
    }
}

/// Configuration of the server front end.
pub struct ServerConfig {
    /// The address the server listens on.
    pub server_address: String,
    /// The directory holding the database file, if configured.
    pub db_dir: Option<String>,
    /// The file name of the database, if configured.
    pub db_name: Option<String>,
}

impl ServerConfig {
    /// Merges with a fallback configuration: the server's own address always
    /// wins, and each unset optional field is filled from the fallback.
    pub fn merge(self, other: ServerConfig) -> (r: ServerConfig)
        ensures
            r.server_address@ == self.server_address@,
            r.db_dir == (if self.db_dir is Some {
                self.db_dir
            } else {
                other.db_dir
            }),
            r.db_name == (if self.db_name is Some {
                self.db_name
            } else {
                other.db_name
            }),
    {
        let db_dir = match self.db_dir {
            Some(d) => Some(d),
            None => other.db_dir,
        };
        let db_name = match self.db_name {
            Some(n) => Some(n),
            None => other.db_name,
        };
        ServerConfig { server_address: self.server_address, db_dir, db_name }
    }
}

} // verus!
