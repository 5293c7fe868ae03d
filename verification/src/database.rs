//! Where the tracker keeps its data, and what a stored pull request holds.
use vstd::prelude::*;

verus! {

/// A pull request as the database stores it.
#[derive(Debug)]
pub struct PullRequest {
    pub id: u64,
    pub merged: bool,
    pub merged_into: Vec<String>,
    pub unmerged_into: Vec<String>,
}

/// The database file inside the data directory `dir`.
pub fn database_file(dir: &str) -> (path: String)
    ensures
        path@ == dir@ + "/database.db"@,
{
    let mut path = String::from_str(dir);
    path.append("/database.db");
    path
}

/// The address under which sqlite opens or creates the file at `path`.
pub fn sqlite_url(path: &str) -> (url: String)
    ensures
        url@ == "sqlite:"@ + path@,
{
    let mut url = String::from_str("sqlite:");
    url.append(path);
    url
}

} // verus!
