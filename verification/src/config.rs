//! Environment-driven configuration: the backend connection fields read
//! from a prefixed environment namespace. Reading the environment and the
//! optional dotenv file is done by the host program, which fills this
//! structure.

use vstd::prelude::*;

verus! {

/// Backend connection configuration.
#[derive(Clone, Debug, PartialEq, Eq)]
pub struct Config {
    /// MySQL host
    pub mysql_host: String,
    /// MySQL port
    pub mysql_port: u16,
    /// MySQL user
    pub mysql_user: String,
    /// MySQL password
    pub mysql_password: String,
    /// MySQL database name
    pub mysql_name: String,
}

} // verus!
