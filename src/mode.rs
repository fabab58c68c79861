use vstd::prelude::*;

verus! {

/// What the program was asked to do.
#[derive(Debug)]
pub enum RunMode {
    /// Scan the directory and serve the feed.
    Serve,
    /// Write a default configuration file to the given path and stop.
    WriteConfig(String),
}

/// Picks the run mode: writing a configuration where a path for it is given,
/// serving otherwise.
pub fn mode_from_opt(write_config: &Option<String>) -> (r: RunMode)
    ensures
        match *write_config {
            Some(p) => r matches RunMode::WriteConfig(q) && q@ == p@,
            None => r is Serve,
        },
{
    match write_config {
        Some(p) => RunMode::WriteConfig(p.clone()),
        None => RunMode::Serve,
    }
}

} // verus!
