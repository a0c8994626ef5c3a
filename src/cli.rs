use vstd::prelude::*;

verus! {

/// The command line: where to connect and who to log in as.
pub struct Cli {
    pub username: String,
    pub password: String,
    pub domain: Option<String>,
    pub port: u16,
    pub host: String,
    pub dynamic_channels: Option<Vec<String>>,
}

} // verus!
