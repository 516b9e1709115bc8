//! What the platform's database holds.

use vstd::prelude::*;
use vstd::string::*;

use crate::config::Config;

pub mod laws;
pub mod models;

verus! {

/// The URL that the connection pool is opened with: the platform's database, created where it does
/// not exist yet.
pub fn init_pool(config: &Config) -> (r: String)
    ensures
        r@ == "sqlite://"@ + config.spec_db_path() + "?mode=rwc"@,
{
    let mut r = config.db_url();
    r.append("?mode=rwc");
    r
}

} // verus!
