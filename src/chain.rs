//! On-chain account keys, parsed by the Solana SDK.

use vstd::prelude::*;
use solana_sdk::pubkey::{ParsePubkeyError, Pubkey};

verus! {

/// An on-chain account key; carried through positions, never looked into.
#[verifier::external_type_specification]
#[verifier::external_body]
pub struct ExPubkey(Pubkey);

/// Why a text is not an account key.
#[verifier::external_type_specification]
#[verifier::external_body]
pub struct ExParsePubkeyError(ParsePubkeyError);

/// Relies on the derived `Clone` of `Pubkey`, a `Copy` type of 32 bytes: the
/// clone is the same key.
pub assume_specification[ <Pubkey as Clone>::clone ](p: &Pubkey) -> (r: Pubkey)
    ensures
        r == *p,
;

/// Whether a text is the base58 form of a 32-byte account key.
pub uninterp spec fn is_pubkey_text(s: Seq<char>) -> bool;

/// Relies on `Pubkey::from_str` of solana-pubkey: it succeeds exactly on the
/// base58 texts of 32-byte keys, which depends on the text alone.
#[verifier::external_body]
pub(crate) fn parse_pubkey(s: &str) -> (r: Result<Pubkey, ParsePubkeyError>)
    ensures
        r is Ok <==> is_pubkey_text(s@),
{
    <Pubkey as std::str::FromStr>::from_str(s)
}

} // verus!
