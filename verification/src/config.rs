//! The configuration of the program and where its file is looked for.

use vstd::prelude::*;
use vstd::string::StringExecFns;

verus! {

/// The name of the configuration file inside its directory.
pub const DEFAULT_CFG_NAME: &'static str = ".autoanki";

/// What the configuration file holds.
#[derive(Debug, Clone)]
pub struct Config {
    pub username: String,
    pub password: String,
}

impl Config {
    /// A configuration with this user name and password.
    pub fn new(username: String, password: String) -> (c: Config)
        ensures
            c.username@ == username@,
            c.password@ == password@,
    {
        Config { username, password }
    }

    /// Whether the home directory has to be asked for: only where no
    /// directory is named on the command line.
    pub fn needs_home(path: &Option<String>) -> (r: bool)
        ensures
            r == path is None,
    {
        path.is_none()
    }

    /// The directory in which the configuration file is looked for: the one
    /// named on the command line, or the home directory where none was
    /// named.
    pub fn directory(path: Option<String>, home: String) -> (dir: String)
        ensures
            dir@ == match path {
                Some(p) => p@,
                None => home@,
            },
    {
        match path {
            Some(p) => p,
            None => home,
        }
    }
}

impl Default for Config {
    /// The configuration with an empty user name and an empty password.
    fn default() -> (c: Config)
        ensures
            c.username@.len() == 0,
            c.password@.len() == 0,
    {
        Config { username: String::new(), password: String::new() }
    }
}

} // verus!
