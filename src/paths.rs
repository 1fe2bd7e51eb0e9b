//! Locations of the files that the node keeps in its data directory and of the
//! bundled resources it reads.

use vstd::prelude::*;

verus! {

/// Name of the file holding the node's hex-encoded private key.
pub const PRIVATE_KEY_FILE: &'static str = "private-key.txt";

/// Name of the node's configuration file.
pub const CONFIG_FILE: &'static str = "config.toml";

/// Directory under which bundled resources are found.
pub const RESOURCES_DIR: &'static str = "resources";

/// Directory, under the data directory, where blobs are stored and served from.
pub const BLOBS_DIR: &'static str = "blobs";

/// Location of the schema lock file inside the resources directory.
pub const SCHEMA_LOCK_FILE: &'static str = "schemas/schema.lock";

/// `dir` and `name` joined by one separator.
pub open spec fn joined(dir: Seq<char>, name: Seq<char>) -> Seq<char> {
    dir + seq!['/'] + name
}

/// The database connection string for a data directory.
pub open spec fn database_url_for(dir: Seq<char>) -> Seq<char> {
    "sqlite:"@ + joined(dir, "db.sqlite3"@)
}

/// Joins a directory and a name below it.
pub fn join_path(dir: &str, name: &str) -> (r: String)
    ensures
        r@ == joined(dir@, name@),
{
    proof {
        reveal_strlit("/");
    }
    let mut r = String::from_str(dir);
    r.append("/");
    r.append(name);
    r
}

/// Path of the identity file in a data directory.
pub fn private_key_path(data_dir: &str) -> (r: String)
    ensures
        r@ == joined(data_dir@, "private-key.txt"@),
{
    join_path(data_dir, PRIVATE_KEY_FILE)
}

/// Path of the configuration file in a data directory.
pub fn config_file_path(data_dir: &str) -> (r: String)
    ensures
        r@ == joined(data_dir@, "config.toml"@),
{
    join_path(data_dir, CONFIG_FILE)
}

/// Path of the blob directory in a data directory.
pub fn blobs_dir_path(data_dir: &str) -> (r: String)
    ensures
        r@ == joined(data_dir@, "blobs"@),
{
    join_path(data_dir, BLOBS_DIR)
}

/// SQLite connection string of the database kept in a data directory.
pub fn database_url(data_dir: &str) -> (r: String)
    ensures
        r@ == database_url_for(data_dir@),
{
    proof {
        reveal_strlit("sqlite:");
    }
    let file = join_path(data_dir, "db.sqlite3");
    let r = String::from_str("sqlite:").concat(file.as_str());
    r
}

/// Path, below the resource root, of the bundled default configuration.
pub fn default_config_resource(resource_root: &str) -> (r: String)
    ensures
        r@ == joined(joined(resource_root@, "resources"@), "config.toml"@),
{
    let dir = join_path(resource_root, RESOURCES_DIR);
    join_path(dir.as_str(), CONFIG_FILE)
}

/// Path, below the resource root, of the bundled schema lock file.
pub fn schema_lock_resource(resource_root: &str) -> (r: String)
    ensures
        r@ == joined(joined(resource_root@, "resources"@), "schemas/schema.lock"@),
{
    let dir = join_path(resource_root, RESOURCES_DIR);
    join_path(dir.as_str(), SCHEMA_LOCK_FILE)
}

} // verus!
