//! The well-known development accounts and the SS58 text of public keys.
//!
//! The keys themselves come from `sp_keyring` and their text form from
//! `sp_core`; this module is the only place that calls them.

use sp_core::crypto::Ss58Codec;
use std::str::FromStr;
use vstd::prelude::*;

verus! {

/// The seed names of the development accounts, in the order in which
/// `sp_keyring` enumerates them.
pub open spec fn dev_account_names() -> Seq<Seq<char>> {
    seq![
        "Alice"@, "Bob"@, "Charlie"@, "Dave"@, "Eve"@, "Ferdie"@,
        "Alice//stash"@, "Bob//stash"@, "Charlie//stash"@, "Dave//stash"@, "Eve//stash"@, "Ferdie//stash"@,
        "One"@, "Two"@,
    ]
}

/// The raw sr25519 public key of the development account with this seed name.
pub uninterp spec fn sr25519_dev_public(name: Seq<char>) -> Seq<u8>;

/// The raw ed25519 public key of the development account with this seed name.
pub uninterp spec fn ed25519_dev_public(name: Seq<char>) -> Seq<u8>;

/// The SS58-check text (as ASCII bytes) of a 32-byte public key under an
/// address format.
pub uninterp spec fn ss58_text(public: Seq<u8>, format: u16) -> Seq<u8>;

/// Calls `sp_keyring::Sr25519Keyring::iter` and returns each account's seed
/// name (its `&'static str` conversion) in iteration order. The order is the
/// order of the enum's variants, which derives `strum::EnumIter`, and the names
/// are those of the crate's `From<Keyring> for &'static str`.
#[verifier::external_body]
pub(crate) fn sr25519_keyring_names() -> (names: Vec<&'static str>)
    ensures
        names@.map_values(|s: &str| s@) == dev_account_names(),
{
    sp_keyring::Sr25519Keyring::iter().map(|k| <&'static str>::from(k)).collect()
}

/// Parses the seed name with `sp_keyring::Sr25519Keyring::from_str` and calls
/// `to_raw_public` on the account. The key is named, not stated. Parsing only
/// fails (and the call panics) on a name that is not one of the accounts'.
#[verifier::external_body]
pub(crate) fn sr25519_public_of(name: &str) -> (public: [u8; 32])
    requires
        dev_account_names().contains(name@),
    ensures
        public@ == sr25519_dev_public(name@),
{
    sp_keyring::Sr25519Keyring::from_str(name).unwrap().to_raw_public()
}

/// Parses the seed name with `sp_keyring::Ed25519Keyring::from_str` and calls
/// `to_raw_public` on the account. The key is named, not stated. Parsing only
/// fails (and the call panics) on a name that is not one of the accounts'.
#[verifier::external_body]
pub(crate) fn ed25519_public_of(name: &str) -> (public: [u8; 32])
    requires
        dev_account_names().contains(name@),
    ensures
        public@ == ed25519_dev_public(name@),
{
    sp_keyring::Ed25519Keyring::from_str(name).unwrap().to_raw_public()
}

/// Calls `sp_core`'s `Ss58Codec::to_ss58check_with_version` on the key as an
/// `AccountId32`, with the address format `format`, and returns the text's
/// bytes. The text is named, not stated; it depends on the key and the format
/// only.
#[verifier::external_body]
pub(crate) fn ss58_encode(public: &[u8; 32], format: u16) -> (text: Vec<u8>)
    ensures
        text@ == ss58_text(public@, format),
{
    let id = sp_core::crypto::AccountId32::from(*public);
    id.to_ss58check_with_version(sp_core::crypto::Ss58AddressFormat::custom(format)).into_bytes()
}

} // verus!
