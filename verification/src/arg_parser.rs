//! The command line, as the library sees it.

use vstd::prelude::*;
use vstd::string::*;

verus! {

/// The name of the configuration file that is read where none is given.
pub const DEFAULT_CONFIG_FILE: &'static str = ".ddns.conf";

/// The arguments of the command line.
#[derive(Debug)]
pub struct Args {
    /// The path of a configuration file to read in place of the default.
    pub config_file: Option<String>,
    /// Print the host's current IP address and do nothing else.
    pub ip: bool,
}

/// The path of the configuration file: the one given, or the default file
/// in the directory `home`.
pub open spec fn config_file_path(config_file: Option<Seq<char>>, home: Seq<char>) -> Seq<char> {
    match config_file {
        Some(path) => path,
        None => home + "/"@ + DEFAULT_CONFIG_FILE@,
    }
}

/// Chooses the configuration file to read.
pub fn get_config_file_path(config_file: Option<String>, home: &str) -> (path: String)
    ensures
        path@ == config_file_path(config_file.deep_view(), home@),
{
    match config_file {
        Some(path) => path,
        None => {
            let mut path = String::from_str(home);
            path.append("/");
            path.append(DEFAULT_CONFIG_FILE);
            path
        },
    }
}

} // verus!
