//! The command line.

use crate::error::{Failure, RunError};
use vstd::prelude::*;

verus! {

/// What a command line asks for.
#[derive(Debug)]
pub struct Config {
    /// Where the CSV file is.
    pub csv_path: String,
    /// The key sent along with every request.
    pub api_key: String,
}

/// Reads the process arguments, the program's name first. Exactly two more
/// are accepted: the path of the CSV file, then the API key. Neither is
/// looked into.
pub fn parse_args(args: &Vec<String>) -> (parsed: Result<Config, RunError>)
    ensures
        args.len() == 3 ==> (parsed matches Ok(config) && config.csv_path@ == args[1]@
            && config.api_key@ == args[2]@),
        args.len() != 3 ==> (parsed matches Err(e) && e@ == Failure::Usage),
{
    if args.len() != 3 {
        return Err(RunError::Usage);
    }
    Ok(Config { csv_path: args[1].clone(), api_key: args[2].clone() })
}

} // verus!
