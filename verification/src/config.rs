//! The destination descriptors the transfer engine consumes.
//!
//! Configuration is collected and persisted by outside collaborators; the
//! engine only reads these records, handed to it as explicit parameters.

use vstd::prelude::*;
use crate::paths::join_spec;
use crate::paths::join_path;

verus! {

/// The authentication credential of one destination: exactly one of a
/// password or "use the run-wide private key" is active.
#[derive(Clone)]
pub enum Credential {
    Password(String),
    PrivateKey,
}

/// One remote upload target, read-only to the engine.
#[derive(Clone)]
pub struct Destination {
    pub name: String,
    pub host: String,
    pub port: u16,
    pub username: String,
    pub remote_path: String,
    pub credential: Credential,
}

/// The run-level input: the private-key path shared by every key-based
/// destination, and the configured destinations.
pub struct Config {
    pub ssh_key_path: String,
    pub destinations: Vec<Destination>,
}

impl Config {
    /// The directory the configuration lives in, under the given home
    /// directory.
    pub fn config_dir(home: &str) -> (r: String)
        ensures
            r@ == join_spec(join_spec(home@, ".config"@), "arkv"@),
    {
        let d = join_path(home, ".config");
        join_path(d.as_str(), "arkv")
    }

    /// The configuration file's path, under the given home directory.
    pub fn config_path(home: &str) -> (r: String)
        ensures
            r@ == join_spec(join_spec(join_spec(home@, ".config"@), "arkv"@), "config.toml"@),
    {
        let d = Self::config_dir(home);
        join_path(d.as_str(), "config.toml")
    }
}

} // verus!
