//! Account records as this supervisor consumes them: the rewards address
//! and associated key material, produced and stored by external
//! collaborators. The supervisor only reads the address; generating or
//! persisting accounts is outside this crate.

use vstd::prelude::*;

verus! {

/// A locally generated account record.
#[derive(Clone, Debug)]
pub struct Account {
    pub address: String,
    pub public_key_b64: String,
    pub secret_key_b64: String,
    pub created_at: String,
}

/// The account file produced by the node's own key generator.
#[derive(Clone, Debug)]
pub struct AccountJson {
    /// The ss58 address handed to the process as the rewards address.
    pub address: String,
    pub secret_phrase: Option<String>,
    pub seed: Option<String>,
    pub pub_key: Option<String>,
}

impl AccountJson {
    /// Whether the record carries a usable (non-empty) address; a start
    /// treats a record without one as a missing prerequisite.
    pub fn has_address(&self) -> (r: bool)
        ensures
            r == (self.address@.len() > 0),
    {
        self.address.as_str().unicode_len() > 0
    }
}

} // verus!
