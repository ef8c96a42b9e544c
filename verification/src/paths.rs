//! Resolution of the two file paths inside the configuration directory.
//!
//! The storage root is the per-user configuration directory that the host
//! resolves; it is passed in here as a plain path string. Each record lives
//! in its own file directly under that root.

use vstd::prelude::*;
use vstd::string::StringExecFns;

verus! {

/// Name of the file that holds the keystore blob.
pub open spec fn keystore_file_name() -> Seq<char> {
    "wallet_keystore.json"@
}

/// Name of the file that holds the plaintext address.
pub open spec fn address_file_name() -> Seq<char> {
    "wallet_address.txt"@
}

/// A directory path joined with a file name by the path separator.
pub open spec fn joined_path(dir: Seq<char>, name: Seq<char>) -> Seq<char> {
    dir + "/"@ + name
}

/// Appends `name` to `dir` with a separator in between.
fn join_path(dir: &str, name: &str) -> (r: String)
    ensures
        r@ == joined_path(dir@, name@),
{
    let mut r = dir.to_owned();
    r.append("/");
    r.append(name);
    r
}

/// Full path of the keystore file under the given configuration directory.
pub fn keystore_path(config_dir: &str) -> (r: String)
    ensures
        r@ == joined_path(config_dir@, keystore_file_name()),
{
    join_path(config_dir, "wallet_keystore.json")
}

/// Full path of the address file under the given configuration directory.
pub fn address_path(config_dir: &str) -> (r: String)
    ensures
        r@ == joined_path(config_dir@, address_file_name()),
{
    join_path(config_dir, "wallet_address.txt")
}

/// The two records live in distinct files: under any configuration
/// directory the keystore path and the address path differ.
pub proof fn lemma_paths_distinct(dir: Seq<char>)
    ensures
        joined_path(dir, keystore_file_name()) != joined_path(dir, address_file_name()),
{
    reveal_strlit("wallet_keystore.json");
    reveal_strlit("wallet_address.txt");
    assert(joined_path(dir, keystore_file_name()).len() != joined_path(
        dir,
        address_file_name(),
    ).len());
}

} // verus!
