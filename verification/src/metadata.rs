//! Static descriptive metadata of the token.
//!
//! Metadata is held beside the ledger and is independently optional; it never
//! influences balances.  A metadata record is valid when its standard-version
//! field carries the expected tag and its reference fields are consistent.

use vstd::prelude::*;

verus! {

/// The version tag a valid metadata record must carry in its
/// standard-version field.
pub open spec fn spec_metadata_spec_version() -> Seq<char> {
    "ft-1.0.0"@
}

/// The version tag as an owned string.
pub fn metadata_spec_version() -> (r: String)
    ensures
        r@ == spec_metadata_spec_version(),
{
    String::from_str("ft-1.0.0")
}

/// Descriptive fields of the token: name, symbol, decimals, optional icon
/// and an optional off-chain reference with its hash.
#[derive(Clone, Debug, PartialEq, Eq)]
pub struct FtMetadata {
    /// Version tag of the metadata standard the record follows.
    pub spec_version: String,
    /// Human-readable token name.
    pub name: String,
    /// Ticker-style symbol.
    pub symbol: String,
    /// Optional icon, as a data URL.
    pub icon: Option<String>,
    /// Optional link to off-chain metadata.
    pub reference: Option<String>,
    /// Hash of the referenced off-chain metadata; present exactly when
    /// `reference` is, and always 32 bytes.
    pub reference_hash: Option<Vec<u8>>,
    /// Number of decimals the UI should show.
    pub decimals: u8,
}

impl FtMetadata {
    /// A record is valid when it carries the expected version tag, reference
    /// and reference hash are present together, and the hash is 32 bytes.
    pub open spec fn spec_valid(self) -> bool {
        &&& self.spec_version@ == spec_metadata_spec_version()
        &&& (self.reference is Some <==> self.reference_hash is Some)
        &&& match self.reference_hash {
            Some(h) => h@.len() == 32,
            None => true,
        }
    }

    /// Decides validity of the record.
    pub fn is_valid(&self) -> (r: bool)
        ensures
            r == self.spec_valid(),
    {
        let version_ok: bool = self.spec_version == metadata_spec_version();
        let refs_ok: bool = self.reference.is_some() == self.reference_hash.is_some();
        let hash_ok: bool = match &self.reference_hash {
            Some(h) => h.len() == 32,
            None => true,
        };
        version_ok && refs_ok && hash_ok
    }
}

} // verus!
