//! Where the rows are kept when nothing else is configured.

use vstd::prelude::*;

verus! {

/// The name of the database file that is used by default.
pub open spec fn database_file() -> Seq<char> {
    "/database.db"@
}

/// The place of the database when none is configured: the file `database.db`
/// in the directory `current_dir`.
pub fn default_database_url(current_dir: &str) -> (url: String)
    ensures
        url@ == current_dir@ + database_file(),
{
    current_dir.to_owned().concat("/database.db")
}

} // verus!
