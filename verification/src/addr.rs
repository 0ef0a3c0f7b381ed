use vstd::prelude::*;
use std::str::FromStr;

use crate::errors::{ConfigError, Setting};

verus! {

/// The 32 bytes that a base58 pool-address string denotes, where it denotes
/// any: the outcome of solana_sdk's pubkey parsing, a function of the string
/// alone.
pub uninterp spec fn pubkey_bytes_of(s: Seq<char>) -> Option<Seq<u8>>;

/// Relies on solana_sdk::pubkey::Pubkey::from_str, which base58-decodes a
/// string into exactly the 32 bytes of a key, deterministically, and fails
/// on every other input; and on Pubkey::to_bytes, which returns that 32-byte
/// array.
#[verifier::external_body]
fn pubkey_from_base58(s: &str) -> (r: Option<Vec<u8>>)
    ensures
        r is Some <==> pubkey_bytes_of(s@) is Some,
        r matches Some(v) ==> pubkey_bytes_of(s@) == Some(v@) && v@.len() == 32,
{
    match solana_sdk::pubkey::Pubkey::from_str(s) {
        Ok(p) => Some(p.to_bytes().to_vec()),
        Err(_) => None,
    }
}

/// Parses a configured pool address, rejecting anything that is not the
/// base58 form of a 32-byte key; `which` names the offending setting.
pub fn parse_pool_address(s: &str, which: Setting) -> (r: Result<Vec<u8>, ConfigError>)
    ensures
        r is Ok <==> pubkey_bytes_of(s@) is Some,
        r matches Ok(v) ==> pubkey_bytes_of(s@) == Some(v@) && v@.len() == 32,
        r matches Err(e) ==> e == ConfigError::Invalid(which),
{
    match pubkey_from_base58(s) {
        Some(v) => Ok(v),
        None => Err(ConfigError::Invalid(which)),
    }
}

} // verus!
