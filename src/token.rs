use vstd::prelude::*;
use vstd::string::StringExecFns;
use crate::accounts::{CredentialAccount, ProofOfWorkAccount};

verus! {

/// Copies that an edition marker allows besides the master token: none, so each
/// token is unique.
pub const EDITION_MAX_SUPPLY: u64 = 0;

/// Units of a token minted for each record.
pub const MINT_AMOUNT: u64 = 1;

/// Royalty of a proof-of-work token, in basis points.
pub const PROOF_OF_WORK_ROYALTY_BPS: u16 = 500;

/// The metadata entry that the token mint adapter creates or updates for a
/// record's token.
#[derive(Clone, Debug)]
pub struct TokenMetadata {
    pub name: String,
    pub symbol: String,
    pub uri: String,
    pub seller_fee_basis_points: u16,
    pub is_mutable: bool,
}

/// The metadata of a credential's token: named after the skill, symbol
/// "CRED", no royalty, and immutable.
pub fn credential_metadata(rec: &CredentialAccount) -> (r: TokenMetadata)
    ensures
        r.name@ == rec.skill_name@,
        r.symbol@ == "CRED"@,
        r.uri@ == rec.credential_uri@,
        r.seller_fee_basis_points == 0,
        !r.is_mutable,
{
    TokenMetadata {
        name: rec.skill_name.clone(),
        symbol: String::from_str("CRED"),
        uri: rec.credential_uri.clone(),
        seller_fee_basis_points: 0,
        is_mutable: false,
    }
}

/// The metadata of a proof-of-work token: named after the project, symbol
/// "POW", with the creator's royalty, and mutable; `uri` locates the
/// off-ledger description.
pub fn proof_of_work_metadata(rec: &ProofOfWorkAccount, uri: String) -> (r: TokenMetadata)
    ensures
        r.name@ == rec.project_title@,
        r.symbol@ == "POW"@,
        r.uri == uri,
        r.seller_fee_basis_points == PROOF_OF_WORK_ROYALTY_BPS,
        r.is_mutable,
{
    TokenMetadata {
        name: rec.project_title.clone(),
        symbol: String::from_str("POW"),
        uri,
        seller_fee_basis_points: PROOF_OF_WORK_ROYALTY_BPS,
        is_mutable: true,
    }
}

} // verus!
