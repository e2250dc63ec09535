//! On-disk layout of the node's data directory: the chain-id mapping and
//! the per-chain paths of the node key file, the database and its lock
//! file. The base directory itself is environment-dependent and is handed
//! in by the caller.

use vstd::prelude::*;

verus! {

/// Maps the UI chain selector to the on-disk chain identifier used in
/// paths; currently every selector maps to itself.
pub fn chain_id_for_ui<'a>(chain_ui: &'a str) -> (r: &'a str)
    ensures
        r@ == chain_ui@,
{
    chain_ui
}

/// `{base}/chains/{chain_id}/network/secret_dilithium`, the node key file
/// the process expects to exist before a start.
pub fn node_key_file_path(base: &str, chain_id: &str) -> (r: String)
    ensures
        r@ == base@ + "/chains/"@ + chain_id@ + "/network/secret_dilithium"@,
{
    let mut p = base.to_owned();
    p.append("/chains/");
    p.append(chain_id);
    p.append("/network/secret_dilithium");
    p
}

/// The node key file path for a UI chain selector.
pub fn node_key_file_path_for_chain_ui(base: &str, chain_ui: &str) -> (r: String)
    ensures
        r@ == base@ + "/chains/"@ + chain_ui@ + "/network/secret_dilithium"@,
{
    node_key_file_path(base, chain_id_for_ui(chain_ui))
}

/// `{base}/chains/{chain_id}/db/full`, the database directory that a
/// repair wipes.
pub fn db_path_for_chain(base: &str, chain_id: &str) -> (r: String)
    ensures
        r@ == base@ + "/chains/"@ + chain_id@ + "/db/full"@,
{
    let mut p = base.to_owned();
    p.append("/chains/");
    p.append(chain_id);
    p.append("/db/full");
    p
}

/// `{base}/chains/{chain_id}/db/full/LOCK`, the lock file that an unlock
/// removes.
pub fn lock_path_for_chain(base: &str, chain_id: &str) -> (r: String)
    ensures
        r@ == base@ + "/chains/"@ + chain_id@ + "/db/full/LOCK"@,
{
    proof {
        reveal_strlit("/db/full");
        reveal_strlit("/LOCK");
        reveal_strlit("/db/full/LOCK");
        assert("/db/full"@ + "/LOCK"@ =~= "/db/full/LOCK"@);
    }
    let mut p = db_path_for_chain(base, chain_id);
    p.append("/LOCK");
    p
}

} // verus!
